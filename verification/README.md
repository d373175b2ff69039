# ani_tui

A terminal user interface for browsing and watching anime: a home screen of
catalogue rows (trending, popular, top rated, seasonal) and personal rows
(continue watching, watchlist), a detail screen with episode pills and
recommendations, search, help, settings and setup overlays, and playback
through `ani-cli`.

## Layout

- `src/` — the library, verified with Verus:
  - `anime.rs` — the anime record, its view, titles, genres and the
    conversion of catalogue entries;
  - `catalogue.rs` — the GraphQL queries of the AniList catalogue;
  - `config.rs` — preferences, defaults and configuration paths;
  - `cover.rs` — placeholder covers: hue, abbreviated label, layout;
  - `error.rs` — the library's errors;
  - `home.rs` — home data, visible rows and the banner choice;
  - `labels.rs` — texts and choices shown by the screens;
  - `player.rs` — `ani-cli` arguments;
  - `state.rs` — the navigation state machine and its laws;
  - `store.rs` — cache staleness, category keys, stored rows;
  - `sync.rs` — seasons, category refresh steps, personal rows;
  - `text.rs` — decimal notation and string building.
- `app/` — the program: terminal I/O, SQLite, HTTP, the `ani-cli`
  process, configuration files and rendering.
- `tests/` — tests of the library.

## Row offsets

The horizontal scroll offset of each home row is kept by name in
`state::RowOffsets`: a vector of `(name, offset)` pairs whose invariant is
that no name occurs twice, viewed as a `Map<Seq<char>, usize>`. A
`HashMap<String, usize>` would not carry that view: vstd specifies
`HashMap` only for key types that it knows to obey its key model
(`obeys_key_model`), which it states for the integer types but not for
`String`, and the library may not assume it. Nor can the map be keyed by an
integer such as the row's index: `row_offset`, `scroll_row_left` and
`scroll_row_right` take any row name, not only the seven home rows, so a
name without an index would have nowhere to go.

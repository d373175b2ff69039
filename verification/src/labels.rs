//! The texts and choices that the screens display: episode and progress
//! labels, action captions, playback status, log colouring and the episode
//! grid.

use vstd::prelude::*;
use std::collections::{HashMap, HashSet};
use crate::anime::{Anime, opt_text};
use crate::config::Player;
use crate::state::{AppState, DetailFocus, ImageProtocol};
use crate::text::{int_digits, nat_digits, push_char, push_decimal, push_signed_decimal};

verus! {

/// "N eps", or "? eps" when the count is unknown.
pub open spec fn episodes_text(episodes: Option<i64>) -> Seq<char> {
    match episodes {
        Some(n) => int_digits(n as int) + " eps"@,
        None => "? eps"@,
    }
}

/// The episode count label.
pub fn episodes_label(episodes: Option<i64>) -> (r: String)
    ensures
        r@ == episodes_text(episodes),
{
    match episodes {
        Some(n) => {
            let mut s = String::new();
            push_signed_decimal(&mut s, n);
            s.append(" eps");
            assert(s@ =~= episodes_text(episodes));
            s
        },
        None => String::from_str("? eps"),
    }
}

/// A number, or "?" when it is unknown.
pub open spec fn number_or_unknown(n: Option<i64>) -> Seq<char> {
    match n {
        Some(v) => int_digits(v as int),
        None => "?"@,
    }
}

/// The year label ("?" when unknown).
pub fn year_label(season_year: Option<i64>) -> (r: String)
    ensures
        r@ == number_or_unknown(season_year),
{
    match season_year {
        Some(y) => {
            let mut s = String::new();
            push_signed_decimal(&mut s, y);
            assert(s@ =~= number_or_unknown(season_year));
            s
        },
        None => String::from_str("?"),
    }
}

/// "W / N watched", with "?" for an unknown episode count.
pub open spec fn progress_text(watched: usize, episodes: Option<i64>) -> Seq<char> {
    nat_digits(watched as nat) + " / "@ + number_or_unknown(episodes) + " watched"@
}

/// The watched-progress label of the banner.
pub fn progress_label(watched: usize, episodes: Option<i64>) -> (r: String)
    ensures
        r@ == progress_text(watched, episodes),
{
    let mut s = String::new();
    push_decimal(&mut s, watched as u64);
    s.append(" / ");
    match episodes {
        Some(n) => push_signed_decimal(&mut s, n),
        None => s.append("?"),
    }
    s.append(" watched");
    assert(s@ =~= progress_text(watched, episodes));
    s
}

/// How many episodes of `anime_id` the banner counts as watched: the
/// recorded progress when it belongs to that anime, else 0.
pub fn banner_watched(state: &AppState, anime_id: i64) -> (r: usize)
    ensures
        r == (match state.banner_progress {
            Some((id, n)) => if id == anime_id { n } else { 0 },
            None => 0,
        }),
{
    match state.banner_progress {
        Some((id, n)) => if id == anime_id { n } else { 0 },
        None => 0,
    }
}

/// The first `max_chars` characters of the description, or of the
/// placeholder text when there is none.
pub open spec fn excerpt_text(description: Option<String>, max_chars: usize) -> Seq<char> {
    let d = match description {
        Some(t) => t@,
        None => "No description available."@,
    };
    if d.len() <= max_chars { d } else { d.subrange(0, max_chars as int) }
}

/// The description excerpt of a banner or detail panel.
pub fn description_excerpt(description: &Option<String>, max_chars: usize) -> (r: String)
    ensures
        r@ == excerpt_text(*description, max_chars),
{
    let d: &str = match description {
        Some(t) => t.as_str(),
        None => "No description available.",
    };
    let n = d.unicode_len();
    if n <= max_chars {
        String::from_str(d)
    } else {
        String::from_str(d.substring_char(0, max_chars))
    }
}

/// The caption of the watchlist button.
pub fn watchlist_label(in_watchlist: bool) -> (r: &'static str)
    ensures
        r@ == (if in_watchlist { " - Remove "@ } else { " + Watchlist "@ }),
{
    if in_watchlist { " - Remove " } else { " + Watchlist " }
}

/// Whether `list` holds an anime with id `id`.
pub fn contains_id(list: &Vec<Anime>, id: i64) -> (r: bool)
    ensures
        r == exists|i: int| 0 <= i < list@.len() && #[trigger] list@[i].id == id,
{
    let mut i: usize = 0;
    while i < list.len()
        invariant
            i <= list@.len(),
            forall|j: int| 0 <= j < i ==> #[trigger] list@[j].id != id,
        decreases list.len() - i,
    {
        if list[i].id == id {
            return true;
        }
        i += 1;
    }
    false
}

/// The format label ("TV" when unknown).
pub fn format_label(format: &Option<String>) -> (r: &str)
    ensures
        r@ == (match opt_text(*format) { Some(t) => t, None => "TV"@ }),
{
    match format {
        Some(t) => t.as_str(),
        None => "TV",
    }
}

/// The status label ("Unknown" when unknown).
pub fn status_label(status: &Option<String>) -> (r: &str)
    ensures
        r@ == (match opt_text(*status) { Some(t) => t, None => "Unknown"@ }),
{
    match status {
        Some(t) => t.as_str(),
        None => "Unknown",
    }
}

/// The play button caption: " Start E1 " at episode 1 (or none), else
/// " Continue EN ".
pub open spec fn play_text(selected: Option<u32>) -> Seq<char> {
    let ep: u32 = match selected { Some(e) => e, None => 1 };
    if ep == 1 { " Start E1 "@ } else { " Continue E"@ + nat_digits(ep as nat) + " "@ }
}

/// The caption of the play action for the selected episode.
pub fn play_label(selected: Option<u32>) -> (r: String)
    ensures
        r@ == play_text(selected),
{
    let ep: u32 = match selected { Some(e) => e, None => 1 };
    if ep == 1 {
        String::from_str(" Start E1 ")
    } else {
        let mut s = String::from_str(" Continue E");
        push_decimal(&mut s, ep as u64);
        s.append(" ");
        assert(s@ =~= play_text(selected));
        s
    }
}

/// The playback line of a detail panel: what plays now when it belongs to
/// this anime, else the last launched playback of this anime, else none.
pub open spec fn playback_status_text(state: AppState, anime_id: i64) -> Option<Seq<char>> {
    if state.now_playing is Some && state.last_played_anime_id == Some(anime_id) {
        opt_text(state.now_playing)
    } else if state.last_played_anime_id == Some(anime_id) {
        opt_text(state.last_played)
    } else {
        None
    }
}

/// The playback status shown on the detail panel of `anime_id`.
pub fn playback_status(state: &AppState, anime_id: i64) -> (r: Option<&str>)
    ensures
        match r {
            Some(t) => playback_status_text(*state, anime_id) == Some(t@),
            None => playback_status_text(*state, anime_id) is None,
        },
{
    let mine = match state.last_played_anime_id {
        Some(id) => id == anime_id,
        None => false,
    };
    if state.now_playing.is_some() && mine {
        match &state.now_playing {
            Some(t) => Some(t.as_str()),
            None => None,
        }
    } else if mine {
        match &state.last_played {
            Some(t) => Some(t.as_str()),
            None => None,
        }
    } else {
        None
    }
}

/// The audio tag of a detail panel.
pub fn dub_tag(has_dub: bool) -> (r: &'static str)
    ensures
        r@ == (if has_dub { "  Sub + Dub"@ } else { "  Sub only"@ }),
{
    if has_dub { "  Sub + Dub" } else { "  Sub only" }
}

/// The reason shown under a recommendation ("Picked for you" when none).
pub fn related_reason(reasons: &HashMap<i64, String>, anime_id: i64) -> (r: &str)
    ensures
        r@ == (if reasons@.contains_key(anime_id) { reasons@[anime_id]@ } else { "Picked for you"@ }),
{
    match reasons.get(&anime_id) {
        Some(t) => t.as_str(),
        None => "Picked for you",
    }
}

/// The audio label of the playback options: "Sub only" when no dub
/// exists, else the pending choice.
pub fn audio_label(can_dub: bool, pending_dub: bool) -> (r: &'static str)
    ensures
        r@ == (if !can_dub { "Sub only"@ } else if pending_dub { "Dub"@ } else { "Sub"@ }),
{
    if !can_dub {
        "Sub only"
    } else if pending_dub {
        "Dub"
    } else {
        "Sub"
    }
}

/// Whether the preferred player can run: mpv falls back to iina.
pub fn preferred_player_ready(player: Player, state: &AppState) -> (r: bool)
    ensures
        r == (match player {
            Player::Mpv => state.has_mpv || state.has_iina,
            Player::Vlc => state.has_vlc,
        }),
{
    match player {
        Player::Mpv => state.has_mpv || state.has_iina,
        Player::Vlc => state.has_vlc,
    }
}

/// Whether every tool that playback needs is installed.
pub fn playback_ready(state: &AppState) -> (r: bool)
    ensures
        r == (state.has_ani_cli && (state.has_mpv || state.has_iina || state.has_vlc)),
{
    state.has_ani_cli && state.has_any_player()
}

/// The hint of an empty search result list.
pub fn search_hint(query_is_empty: bool) -> (r: &'static str)
    ensures
        r@ == (if query_is_empty { "Type to search anime..."@ } else { "No results found."@ }),
{
    if query_is_empty { "Type to search anime..." } else { "No results found." }
}

/// The first log line shown when `len` lines share a box `height` cells
/// tall (two cells go to its border): the last lines that fit.
pub fn log_window_start(len: usize, height: u16) -> (r: usize)
    ensures
        ({
            let visible: int = if height >= 2 { height - 2 } else { 0 };
            r == (if len >= visible { len - visible } else { 0 })
        }),
{
    let visible: usize = if height >= 2 { (height - 2) as usize } else { 0 };
    if len >= visible { len - visible } else { 0 }
}

/// `needle` occurs in `hay` at position `i`.
pub open spec fn occurs_at(hay: Seq<char>, needle: Seq<char>, i: int) -> bool {
    0 <= i && i + needle.len() <= hay.len() && hay.subrange(i, i + needle.len()) == needle
}

/// Whether `needle` occurs in `hay`.
pub fn contains_text(hay: &str, needle: &str) -> (r: bool)
    ensures
        r == exists|i: int| occurs_at(hay@, needle@, i),
{
    let n = hay.unicode_len();
    let m = needle.unicode_len();
    if m > n {
        assert forall|i: int| !occurs_at(hay@, needle@, i) by {}
        return false;
    }
    let mut i: usize = 0;
    while i <= n - m
        invariant
            n == hay@.len(),
            m == needle@.len(),
            m <= n,
            i <= n - m + 1,
            forall|k: int| 0 <= k < i ==> !occurs_at(hay@, needle@, k),
        decreases n - m + 1 - i,
    {
        let mut j: usize = 0;
        let mut same = true;
        while j < m
            invariant
                n == hay@.len(),
                m == needle@.len(),
                i + m <= n,
                j <= m,
                same == forall|k: int| 0 <= k < j ==> hay@[i + k] == needle@[k],
            decreases m - j,
        {
            if hay.get_char(i + j) != needle.get_char(j) {
                same = false;
            }
            j += 1;
        }
        if same {
            assert(hay@.subrange(i as int, i + m) =~= needle@);
            assert(occurs_at(hay@, needle@, i as int));
            return true;
        }
        assert(!occurs_at(hay@, needle@, i as int)) by {
            if occurs_at(hay@, needle@, i as int) {
                let k = choose|k: int| 0 <= k < m && hay@[i + k] != needle@[k];
                assert(hay@.subrange(i as int, i + m)[k] == hay@[i + k]);
            }
        }
        i += 1;
    }
    false
}

/// How a playback log line is coloured.
#[derive(Debug, Clone, Copy, PartialEq, Eq, Structural)]
pub enum LogTone {
    Error,
    Accent,
    Plain,
}

/// The tone of a log line: errors when it mentions "error" or "Error",
/// accented when it holds "›" or starts with "[", plain otherwise.
pub open spec fn tone_of(line: Seq<char>) -> LogTone {
    if (exists|i: int| occurs_at(line, "error"@, i)) || (exists|i: int| occurs_at(line, "Error"@, i)) {
        LogTone::Error
    } else if (exists|i: int| occurs_at(line, "\u{203a}"@, i)) || (line.len() > 0 && line[0] == '[') {
        LogTone::Accent
    } else {
        LogTone::Plain
    }
}

/// Chooses the colour of a playback log line.
pub fn log_tone(line: &str) -> (r: LogTone)
    ensures
        r == tone_of(line@),
{
    if contains_text(line, "error") || contains_text(line, "Error") {
        LogTone::Error
    } else if contains_text(line, "\u{203a}") || (line.unicode_len() > 0 && line.get_char(0) == '[') {
        LogTone::Accent
    } else {
        LogTone::Plain
    }
}

/// Which episode pills a box shows.
pub struct EpisodeGrid {
    /// Pills per row.
    pub per_row: usize,
    /// Rows that all episodes take.
    pub rows_needed: usize,
    /// The first row shown.
    pub first_row: usize,
    /// One past the last row shown.
    pub end_row: usize,
    /// Whether the rows take more lines than the box shows below its
    /// title, so that a scrollbar is drawn.
    pub scrollable: bool,
}

/// Lays out `count` episode pills, six cells wide, in a box `width` by
/// `height` cells whose first line is kept for the title, scrolled to the
/// row of pill `offset`.
pub fn episode_grid(count: usize, width: u16, height: u16, offset: usize) -> (g: EpisodeGrid)
    ensures
        g.per_row == (if width / 6 >= 1 { width / 6 } else { 1 }),
        g.rows_needed == (count as int) / (g.per_row as int) + (if (count as int) % (g.per_row as int) > 0 { 1int } else { 0 }),
        g.first_row == offset / g.per_row,
        ({
            let visible: int = if height >= 1 { height - 1 } else { 0 };
            let end: int = g.first_row + visible;
            g.end_row == (if end <= g.rows_needed { end } else { g.rows_needed as int })
        }),
        g.scrollable == (g.rows_needed > (if height >= 1 { height - 1 } else { 0 })),
{
    let per_row: usize = if width / 6 >= 1 { (width / 6) as usize } else { 1 };
    let q = count / per_row;
    let extra: usize = if count % per_row > 0 { 1 } else { 0 };
    assert(q < usize::MAX || extra == 0) by (nonlinear_arith)
        requires
            per_row >= 1,
            q == count / per_row,
            extra == (if count % per_row > 0 { 1usize } else { 0 }),
    {
        if per_row == 1 {
            assert(count % per_row == 0);
        } else {
            assert(q <= count / 2);
        }
    }
    let rows_needed = q + extra;
    let first_row = offset / per_row;
    let visible: usize = if height >= 1 { (height - 1) as usize } else { 0 };
    let end_row = if visible <= rows_needed && first_row <= rows_needed - visible {
        first_row + visible
    } else {
        rows_needed
    };
    EpisodeGrid { per_row, rows_needed, first_row, end_row, scrollable: rows_needed > visible }
}

/// The text of an episode pill: a space, `E` and the episode number,
/// padded with spaces to at least three digits' width.
pub open spec fn pill_text(episode: u32) -> Seq<char> {
    let digits = nat_digits(episode as nat);
    let pad: int = if digits.len() < 3 { 3 - digits.len() } else { 0 };
    " E"@ + digits + Seq::new(pad as nat, |i: int| ' ')
}

/// The text of the pill of `episode`.
pub fn pill_label(episode: u32) -> (r: String)
    ensures
        r@ == pill_text(episode),
{
    let mut s = String::from_str(" E");
    let start = s.unicode_len();
    proof {
        reveal_strlit(" E");
    }
    push_decimal(&mut s, episode as u64);
    let width = s.unicode_len();
    let ghost base = s@;
    assert(base =~= " E"@ + nat_digits(episode as nat));
    let mut n: usize = width;
    while n < start + 3
        invariant
            start == 2,
            width == base.len(),
            width <= n,
            n <= (if width < 5 { 5 } else { width }),
            s@ == base + Seq::new((n - width) as nat, |i: int| ' '),
        decreases start + 3 - n,
    {
        push_char(&mut s, ' ');
        n += 1;
        proof {
            assert(s@ =~= base + Seq::new((n - width) as nat, |i: int| ' '));
        }
    }
    proof {
        assert(s@ =~= pill_text(episode));
    }
    s
}

/// How many recommendation cards, 24 cells wide with one-cell gaps, fit
/// in `width` cells (at least one).
pub fn related_cards_shown(width: u16) -> (r: usize)
    ensures
        r == (if width / 25 >= 1 { width / 25 } else { 1 }),
{
    if width / 25 >= 1 { (width / 25) as usize } else { 1 }
}

/// What the cover area of a banner or detail panel shows.
#[derive(Debug, Clone, Copy, PartialEq, Eq, Structural)]
pub enum CoverMode {
    /// The decoded cover image.
    Image,
    /// A "Loading cover..." notice.
    Loading,
    /// A "Cover unavailable" notice.
    Unavailable,
    /// The two-tone placeholder.
    Placeholder,
}

/// The terminal shows images and the cover state concerns `anime_id`.
pub open spec fn cover_for(state: AppState, anime_id: i64) -> bool {
    state.image_protocol is Some && state.image_protocol->0 != ImageProtocol::Halfblocks
        && state.cover_anime_id == Some(anime_id)
}

/// The notice shown while the cover of `anime_id` is not ready.
pub open spec fn pending_cover(state: AppState, anime_id: i64) -> CoverMode {
    if state.cover_failed_anime_id == Some(anime_id) { CoverMode::Unavailable } else { CoverMode::Loading }
}

/// The cover of the home banner: the image once it is ready for this
/// anime, a notice while it loads or after it failed, else the placeholder.
pub fn banner_cover_mode(state: &AppState, anime_id: i64) -> (m: CoverMode)
    ensures
        m == (if cover_for(*state, anime_id) {
            if state.cover_ready { CoverMode::Image } else { pending_cover(*state, anime_id) }
        } else {
            CoverMode::Placeholder
        }),
{
    let support = state.has_image_support();
    let mine = match state.cover_anime_id {
        Some(id) => id == anime_id,
        None => false,
    };
    let failed = match state.cover_failed_anime_id {
        Some(id) => id == anime_id,
        None => false,
    };
    if support && state.cover_ready && mine {
        CoverMode::Image
    } else if support && mine {
        if failed { CoverMode::Unavailable } else { CoverMode::Loading }
    } else {
        CoverMode::Placeholder
    }
}

/// The cover of the detail panel: the image whenever one is ready, a
/// notice while this anime's cover loads or after it failed, else the
/// placeholder.
pub fn detail_cover_mode(state: &AppState, anime_id: i64) -> (m: CoverMode)
    ensures
        m == (if state.image_protocol is Some && state.image_protocol->0 != ImageProtocol::Halfblocks
            && state.cover_ready {
            CoverMode::Image
        } else if cover_for(*state, anime_id) {
            pending_cover(*state, anime_id)
        } else {
            CoverMode::Placeholder
        }),
{
    let support = state.has_image_support();
    let mine = match state.cover_anime_id {
        Some(id) => id == anime_id,
        None => false,
    };
    let failed = match state.cover_failed_anime_id {
        Some(id) => id == anime_id,
        None => false,
    };
    if support && state.cover_ready {
        CoverMode::Image
    } else if support && mine {
        if failed { CoverMode::Unavailable } else { CoverMode::Loading }
    } else {
        CoverMode::Placeholder
    }
}

/// How an episode pill is drawn.
#[derive(Debug, Clone, Copy, PartialEq, Eq, Structural)]
pub enum PillTone {
    Selected,
    Watched,
    Plain,
}

/// The selected pill is highlighted, watched ones dimmed.
pub fn pill_tone(episode: u32, selected: u32, watched: &HashSet<u32>) -> (t: PillTone)
    ensures
        t == (if episode == selected {
            PillTone::Selected
        } else if watched@.contains(episode) {
            PillTone::Watched
        } else {
            PillTone::Plain
        }),
{
    if episode == selected {
        PillTone::Selected
    } else if watched.contains(&episode) {
        PillTone::Watched
    } else {
        PillTone::Plain
    }
}

/// How many home cards, 22 cells wide with one-cell gaps, fit in `width`
/// cells (at least one).
pub fn cards_shown(width: u16) -> (r: usize)
    ensures
        r == (if width / 23 >= 1 { width / 23 } else { 1 }),
{
    if width / 23 >= 1 { (width / 23) as usize } else { 1 }
}

/// Whether recommendation card `index` is the selected one: the related
/// area has the focus and its cursor is on the card.
pub fn related_selected(state: &AppState, index: usize) -> (r: bool)
    ensures
        r == (state.detail_focus == DetailFocus::Related && index == state.detail_related_cursor),
{
    state.detail_focus == DetailFocus::Related && index == state.detail_related_cursor
}

/// The marker in front of a list entry: an arrow for the selected one.
pub fn cursor_prefix(selected: bool) -> (r: &'static str)
    ensures
        r@ == (if selected { "\u{25b6} "@ } else { "  "@ }),
{
    if selected { "\u{25b6} " } else { "  " }
}

} // verus!

//! The canonical anime record and its conversion from catalogue entries.

use vstd::prelude::*;

verus! {

/// A single anime entry, the data model shared by every screen.
#[derive(Debug)]
pub struct Anime {
    pub id: i64,
    pub title_english: Option<String>,
    pub title_romaji: String,
    pub title_native: Option<String>,
    pub description: Option<String>,
    pub episodes: Option<i64>,
    pub status: Option<String>,
    pub season: Option<String>,
    pub season_year: Option<i64>,
    pub score: Option<i64>,
    pub format: Option<String>,
    /// JSON-encoded list of genre names, e.g. `["Action","Drama"]`.
    pub genres: String,
    pub cover_url: Option<String>,
    pub cover_blob: Option<Vec<u8>>,
    /// 0 or 1.
    pub has_dub: i64,
    /// Unix timestamp of the last refresh.
    pub updated_at: i64,
}

/// The mathematical content of an [`Anime`]: every text as a character
/// sequence and the cover image as a byte sequence.
pub struct AnimeView {
    pub id: i64,
    pub title_english: Option<Seq<char>>,
    pub title_romaji: Seq<char>,
    pub title_native: Option<Seq<char>>,
    pub description: Option<Seq<char>>,
    pub episodes: Option<i64>,
    pub status: Option<Seq<char>>,
    pub season: Option<Seq<char>>,
    pub season_year: Option<i64>,
    pub score: Option<i64>,
    pub format: Option<Seq<char>>,
    pub genres: Seq<char>,
    pub cover_url: Option<Seq<char>>,
    pub cover_blob: Option<Seq<u8>>,
    pub has_dub: i64,
    pub updated_at: i64,
}

pub open spec fn opt_text(o: Option<String>) -> Option<Seq<char>> {
    match o {
        Some(s) => Some(s@),
        None => None,
    }
}

pub open spec fn opt_bytes(o: Option<Vec<u8>>) -> Option<Seq<u8>> {
    match o {
        Some(v) => Some(v@),
        None => None,
    }
}

impl View for Anime {
    type V = AnimeView;

    open spec fn view(&self) -> AnimeView {
        AnimeView {
            id: self.id,
            title_english: opt_text(self.title_english),
            title_romaji: self.title_romaji@,
            title_native: opt_text(self.title_native),
            description: opt_text(self.description),
            episodes: self.episodes,
            status: opt_text(self.status),
            season: opt_text(self.season),
            season_year: self.season_year,
            score: self.score,
            format: opt_text(self.format),
            genres: self.genres@,
            cover_url: opt_text(self.cover_url),
            cover_blob: opt_bytes(self.cover_blob),
            has_dub: self.has_dub,
            updated_at: self.updated_at,
        }
    }
}

/// What a JSON list of strings decodes to, `None` where the text is not one.
pub uninterp spec fn json_string_list(text: Seq<char>) -> Option<Seq<Seq<char>>>;

/// The JSON text of a list of strings, `None` where encoding fails.
pub uninterp spec fn json_encoded_list(items: Seq<Seq<char>>) -> Option<Seq<char>>;

/// Decodes `text` as a JSON array of strings with `serde_json::from_str`.
/// The decoded list is named by `json_string_list`; any decoding error
/// becomes `None`.
#[verifier::external_body]
fn decode_string_list(text: &str) -> (r: Option<Vec<String>>)
    ensures
        match r {
            Some(v) => json_string_list(text@) == Some(v.deep_view()),
            None => json_string_list(text@) is None,
        },
{
    serde_json::from_str::<Vec<String>>(text).ok()
}

/// Encodes a list of strings as JSON with `serde_json::to_string`.
/// The text is named by `json_encoded_list`; an encoding error becomes `None`.
#[verifier::external_body]
fn encode_string_list(items: &Vec<String>) -> (r: Option<String>)
    ensures
        match r {
            Some(s) => json_encoded_list(items.deep_view()) == Some(s@),
            None => json_encoded_list(items.deep_view()) is None,
        },
{
    serde_json::to_string(items).ok()
}

/// The ellipsis character appended to shortened titles.
pub open spec fn ellipsis() -> char {
    '\u{2026}'
}

/// The title shown to the user: the English title when present and
/// non-empty, the romaji title otherwise.
pub open spec fn display_title_of(a: AnimeView) -> Seq<char> {
    match a.title_english {
        Some(t) => if t.len() > 0 { t } else { a.title_romaji },
        None => a.title_romaji,
    }
}

/// At most 20 characters: longer titles keep 19 and gain an ellipsis.
pub open spec fn shortened(t: Seq<char>) -> Seq<char> {
    if t.len() <= 20 {
        t
    } else {
        t.subrange(0, 19).push(ellipsis())
    }
}

/// The genre list stored in the record, empty when it does not decode.
pub open spec fn genre_list_of(a: AnimeView) -> Seq<Seq<char>> {
    match json_string_list(a.genres) {
        Some(g) => g,
        None => Seq::empty(),
    }
}

/// Queries offered for playback: the displayed title, then the romaji
/// title when it differs from it.
pub open spec fn playback_queries_of(a: AnimeView) -> Seq<Seq<char>> {
    if display_title_of(a) == a.title_romaji {
        seq![display_title_of(a)]
    } else {
        seq![display_title_of(a), a.title_romaji]
    }
}

/// Copies an optional text.
pub fn clone_opt_string(s: &Option<String>) -> (r: Option<String>)
    ensures
        r == *s,
{
    match s {
        Some(t) => Some(t.clone()),
        None => None,
    }
}

fn clone_opt_bytes(b: &Option<Vec<u8>>) -> (r: Option<Vec<u8>>)
    ensures
        opt_bytes(r) == opt_bytes(*b),
{
    match b {
        Some(v) => {
            let mut c: Vec<u8> = Vec::new();
            let mut i: usize = 0;
            while i < v.len()
                invariant
                    i <= v.len(),
                    c@ == v@.subrange(0, i as int),
                decreases v.len() - i,
            {
                c.push(v[i]);
                i += 1;
                assert(c@ =~= v@.subrange(0, i as int));
            }
            assert(c@ =~= v@);
            Some(c)
        },
        None => None,
    }
}

impl Clone for Anime {
    fn clone(&self) -> (r: Self)
        ensures
            r@ == self@,
    {
        Anime {
            id: self.id,
            title_english: clone_opt_string(&self.title_english),
            title_romaji: self.title_romaji.clone(),
            title_native: clone_opt_string(&self.title_native),
            description: clone_opt_string(&self.description),
            episodes: self.episodes,
            status: clone_opt_string(&self.status),
            season: clone_opt_string(&self.season),
            season_year: self.season_year,
            score: self.score,
            format: clone_opt_string(&self.format),
            genres: self.genres.clone(),
            cover_url: clone_opt_string(&self.cover_url),
            cover_blob: clone_opt_bytes(&self.cover_blob),
            has_dub: self.has_dub,
            updated_at: self.updated_at,
        }
    }
}

impl Anime {
    /// Decoded genre list (empty when the stored JSON does not decode).
    pub fn genre_list(&self) -> (r: Vec<String>)
        ensures
            r.deep_view() == genre_list_of(self@),
    {
        match decode_string_list(self.genres.as_str()) {
            Some(v) => v,
            None => {
                let v: Vec<String> = Vec::new();
                assert(v.deep_view() =~= Seq::<Seq<char>>::empty());
                v
            },
        }
    }

    /// Display title: prefers a non-empty English title, falls back to romaji.
    pub fn display_title(&self) -> (r: &str)
        ensures
            r@ == display_title_of(self@),
    {
        match &self.title_english {
            Some(t) => {
                if t.as_str().is_empty() {
                    self.title_romaji.as_str()
                } else {
                    t.as_str()
                }
            },
            None => self.title_romaji.as_str(),
        }
    }

    /// Short title for cards: at most 20 characters, with an ellipsis
    /// when shortened.
    pub fn short_title(&self) -> (r: String)
        ensures
            r@ == shortened(display_title_of(self@)),
            r@.len() <= 20,
    {
        let title = self.display_title();
        let n = title.unicode_len();
        if n <= 20 {
            String::from_str(title)
        } else {
            let head = title.substring_char(0, 19);
            let mut s = String::from_str(head);
            s.append("\u{2026}");
            proof {
                reveal_strlit("\u{2026}");
                assert(s@ =~= title@.subrange(0, 19).push(ellipsis()));
            }
            s
        }
    }

    /// True when a dubbed version is available.
    pub fn has_dub(&self) -> (r: bool)
        ensures
            r == (self.has_dub != 0),
    {
        self.has_dub != 0
    }

    /// Candidate search queries for ani-cli: the displayed title, then the
    /// romaji title when it differs.
    pub fn playback_queries(&self) -> (r: Vec<String>)
        ensures
            r.deep_view() == playback_queries_of(self@),
    {
        let shown = String::from_str(self.display_title());
        let mut out: Vec<String> = Vec::new();
        if shown == self.title_romaji {
            out.push(shown);
            assert(out.deep_view() =~= playback_queries_of(self@));
        } else {
            out.push(shown);
            out.push(self.title_romaji.clone());
            assert(out.deep_view() =~= playback_queries_of(self@));
        }
        out
    }
}

/// Title block of a catalogue entry.
#[derive(Debug)]
pub struct RawTitle {
    pub english: Option<String>,
    pub romaji: Option<String>,
    pub native: Option<String>,
}

/// Cover image block of a catalogue entry.
#[derive(Debug)]
pub struct RawCoverImage {
    pub large: Option<String>,
}

/// An anime as the AniList catalogue describes it.
#[derive(Debug)]
pub struct RawAnime {
    pub id: i64,
    pub title: RawTitle,
    pub description: Option<String>,
    pub episodes: Option<i64>,
    pub status: Option<String>,
    pub season: Option<String>,
    pub season_year: Option<i64>,
    pub average_score: Option<i64>,
    pub format: Option<String>,
    pub genres: Vec<String>,
    pub cover_image: Option<RawCoverImage>,
}

/// The romaji title, or "Unknown" when the catalogue gives none.
pub open spec fn romaji_or_unknown(r: Option<String>) -> Seq<char> {
    match r {
        Some(s) => s@,
        None => "Unknown"@,
    }
}

/// The cover address, when both the cover block and its large image exist.
pub open spec fn cover_url_of(c: Option<RawCoverImage>) -> Option<String> {
    match c {
        Some(img) => img.large,
        None => None,
    }
}

/// The stored genre text: the JSON encoding, or `[]` when encoding fails.
pub open spec fn genres_text(g: Seq<Seq<char>>) -> Seq<char> {
    match json_encoded_list(g) {
        Some(t) => t,
        None => "[]"@,
    }
}

/// The record that a catalogue entry becomes at time `now`.
pub open spec fn converted(raw: RawAnime, a: AnimeView, now: i64) -> bool {
    &&& a.id == raw.id
    &&& a.title_english == opt_text(raw.title.english)
    &&& a.title_romaji == romaji_or_unknown(raw.title.romaji)
    &&& a.title_native == opt_text(raw.title.native)
    &&& a.description == opt_text(raw.description)
    &&& a.episodes == raw.episodes
    &&& a.status == opt_text(raw.status)
    &&& a.season == opt_text(raw.season)
    &&& a.season_year == raw.season_year
    &&& a.score == raw.average_score
    &&& a.format == opt_text(raw.format)
    &&& a.genres == genres_text(raw.genres.deep_view())
    &&& a.cover_url == opt_text(cover_url_of(raw.cover_image))
    &&& a.cover_blob is None
    &&& a.has_dub == 0
    &&& a.updated_at == now
}

impl RawAnime {
    /// Converts a catalogue entry into the canonical record, stamped `now`.
    pub fn into_anime(self, now: i64) -> (a: Anime)
        ensures
            converted(self, a@, now),
    {
        let genres = match encode_string_list(&self.genres) {
            Some(t) => t,
            None => String::from_str("[]"),
        };
        let romaji = match self.title.romaji {
            Some(r) => r,
            None => String::from_str("Unknown"),
        };
        let cover_url = match self.cover_image {
            Some(img) => img.large,
            None => None,
        };
        Anime {
            id: self.id,
            title_english: self.title.english,
            title_romaji: romaji,
            title_native: self.title.native,
            description: self.description,
            episodes: self.episodes,
            status: self.status,
            season: self.season,
            season_year: self.season_year,
            score: self.average_score,
            format: self.format,
            genres,
            cover_url,
            cover_blob: None,
            has_dub: 0,
            updated_at: now,
        }
    }
}

/// Converts every entry of a catalogue page, keeping their order.
pub fn convert_page(raws: Vec<RawAnime>, now: i64) -> (r: Vec<Anime>)
    ensures
        r.len() == raws.len(),
        forall|i: int| 0 <= i < r.len() ==> converted(#[trigger] raws@[i], r@[i]@, now),
{
    let mut out: Vec<Anime> = Vec::new();
    let mut rest = raws;
    let ghost orig = rest@;
    let mut rev: Vec<RawAnime> = Vec::new();
    // Reverse so that popping yields the entries in their given order.
    while rest.len() > 0
        invariant
            rev@.len() + rest@.len() == orig.len(),
            rest@ == orig.subrange(0, rest@.len() as int),
            forall|j: int| 0 <= j < rev@.len() ==> rev@[j] == orig[orig.len() - 1 - j],
        decreases rest.len(),
    {
        let x = rest.pop().unwrap();
        rev.push(x);
    }
    while rev.len() > 0
        invariant
            out@.len() + rev@.len() == orig.len(),
            forall|j: int| 0 <= j < rev@.len() ==> rev@[j] == orig[orig.len() - 1 - j],
            forall|i: int| 0 <= i < out@.len() ==> converted(#[trigger] orig[i], out@[i]@, now),
        decreases rev.len(),
    {
        let x = rev.pop().unwrap();
        let a = x.into_anime(now);
        out.push(a);
    }
    out
}

/// Whether the record's text field `field` holds the same text as the
/// entry's `source`: both missing, or both present with equal text.
pub open spec fn carries_text(field: Option<Seq<char>>, source: Option<String>) -> bool {
    match source {
        Some(t) => field == Some(t@),
        None => field is None,
    }
}

/// A record converted from a catalogue entry carries the entry's id,
/// titles, description, episode count, status, season, year, score and
/// format unchanged (a missing romaji title becomes "Unknown"), is not
/// marked dubbed, has no cover image yet, and is stamped with the time of
/// the conversion.
pub proof fn law_conversion_keeps_the_entry(raw: RawAnime, a: Anime, now: i64)
    requires
        converted(raw, a@, now),
    ensures
        a.id == raw.id,
        carries_text(a@.title_english, raw.title.english),
        carries_text(a@.title_native, raw.title.native),
        raw.title.romaji matches Some(t) ==> a.title_romaji@ == t@,
        raw.title.romaji is None ==> a.title_romaji@ == "Unknown"@,
        carries_text(a@.description, raw.description),
        a.episodes == raw.episodes,
        carries_text(a@.status, raw.status),
        carries_text(a@.season, raw.season),
        a.season_year == raw.season_year,
        a.score == raw.average_score,
        carries_text(a@.format, raw.format),
        a.cover_blob is None,
        a.has_dub == 0,
        a.updated_at == now,
{
}

} // verus!

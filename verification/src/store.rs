//! The logic around the SQLite cache: row types, cache staleness, category
//! keys and ordering, search patterns and connection addresses.

use vstd::prelude::*;
use crate::anime::Anime;
use crate::text::push_char;
use vstd::string::StringSliceAdditionalSpecFns;

verus! {

/// A single history entry: which episode of which show was watched.
#[derive(Debug, Clone, Copy, PartialEq, Eq)]
pub struct HistoryEntry {
    pub anime_id: i64,
    pub episode: i64,
    /// Unix timestamp.
    pub watched_at: i64,
}

/// The "continue watching" row entry of one show.
#[derive(Debug, Clone, Copy, PartialEq, Eq)]
pub struct ContinueEntry {
    pub anime_id: i64,
    pub last_episode: i64,
    pub last_watched: i64,
}

/// A category is stale when it was never synced, or when more than `ttl`
/// seconds have passed since it was (with the lifetime read as a signed
/// 64-bit number).
pub open spec fn stale(last_synced: Option<i64>, ttl: u64, now: i64) -> bool {
    match last_synced {
        None => true,
        Some(ts) => now - ts > (ttl as i64),
    }
}

/// Decides whether a category must be fetched again, given when it was
/// last synced.
pub fn is_stale_at(last_synced: Option<i64>, ttl: u64, now: i64) -> (r: bool)
    requires
        last_synced is Some ==> i64::MIN <= now - last_synced->0 <= i64::MAX,
    ensures
        r == stale(last_synced, ttl, now),
{
    match last_synced {
        None => true,
        Some(ts) => now - ts > (ttl as i64),
    }
}

/// Once stale, a category stays stale until it is synced again; a category
/// never synced is stale.
pub proof fn law_staleness_persists(last_synced: Option<i64>, ttl: u64, now: i64, later: i64)
    requires
        now <= later,
        stale(last_synced, ttl, now),
    ensures
        stale(last_synced, ttl, later),
        stale(None, ttl, now),
{
}

/// The home-screen categories that are fetched from the catalogue.
#[derive(Debug, Clone, Copy, PartialEq, Eq, Structural)]
pub enum Category {
    Trending,
    Popular,
    TopRated,
    Seasonal,
}

/// The storage key of each category.
pub open spec fn category_key(c: Category) -> Seq<char> {
    match c {
        Category::Trending => "trending"@,
        Category::Popular => "popular"@,
        Category::TopRated => "top_rated"@,
        Category::Seasonal => "seasonal"@,
    }
}

/// The category stored under `key`, if any.
pub open spec fn category_of_key(key: Seq<char>) -> Option<Category> {
    if key == "trending"@ {
        Some(Category::Trending)
    } else if key == "popular"@ {
        Some(Category::Popular)
    } else if key == "top_rated"@ {
        Some(Category::TopRated)
    } else if key == "seasonal"@ {
        Some(Category::Seasonal)
    } else {
        None
    }
}

fn same_text(a: &str, b: &str) -> (r: bool)
    ensures
        r == (a@ == b@),
{
    String::from_str(a) == String::from_str(b)
}

impl Category {
    /// The storage key of the category.
    pub fn key(&self) -> (r: &'static str)
        ensures
            r@ == category_key(*self),
    {
        match self {
            Category::Trending => "trending",
            Category::Popular => "popular",
            Category::TopRated => "top_rated",
            Category::Seasonal => "seasonal",
        }
    }

    /// The category stored under `key`.
    pub fn from_key(key: &str) -> (r: Option<Category>)
        ensures
            r == category_of_key(key@),
    {
        if same_text(key, "trending") {
            Some(Category::Trending)
        } else if same_text(key, "popular") {
            Some(Category::Popular)
        } else if same_text(key, "top_rated") {
            Some(Category::TopRated)
        } else if same_text(key, "seasonal") {
            Some(Category::Seasonal)
        } else {
            None
        }
    }
}

/// Every category key names its category.
pub proof fn law_category_key_round_trip(c: Category)
    ensures
        category_of_key(category_key(c)) == Some(c),
{
    reveal_strlit("trending");
    reveal_strlit("popular");
    reveal_strlit("top_rated");
    reveal_strlit("seasonal");
    assert("popular"@[0] != "trending"@[0]);
    assert("top_rated"@[1] != "trending"@[1]);
    assert("top_rated"@[0] != "popular"@[0]);
    assert("seasonal"@[0] != "trending"@[0]);
    assert("seasonal"@[0] != "popular"@[0]);
    assert("seasonal"@[0] != "top_rated"@[0]);
}

/// The stored rows of a category list: each anime id with its position.
pub fn category_positions(anime_ids: &Vec<i64>) -> (rows: Vec<(i64, i64)>)
    ensures
        rows@.len() == anime_ids@.len(),
        forall|i: int| 0 <= i < rows@.len() ==> #[trigger] rows@[i] == (anime_ids@[i], i as i64),
{
    let mut rows: Vec<(i64, i64)> = Vec::new();
    let mut i: usize = 0;
    while i < anime_ids.len()
        invariant
            i <= anime_ids@.len(),
            rows@.len() == i,
            forall|k: int| 0 <= k < i ==> #[trigger] rows@[k] == (anime_ids@[k], k as i64),
        decreases anime_ids.len() - i,
    {
        rows.push((anime_ids[i], i as i64));
        i += 1;
    }
    rows
}

/// The ids of a list of anime, in order.
pub fn anime_ids(list: &Vec<Anime>) -> (ids: Vec<i64>)
    ensures
        ids@.len() == list@.len(),
        forall|i: int| 0 <= i < ids@.len() ==> #[trigger] ids@[i] == list@[i].id,
{
    let mut ids: Vec<i64> = Vec::new();
    let mut i: usize = 0;
    while i < list.len()
        invariant
            i <= list@.len(),
            ids@.len() == i,
            forall|k: int| 0 <= k < i ==> #[trigger] ids@[k] == list@[k].id,
        decreases list.len() - i,
    {
        ids.push(list[i].id);
        i += 1;
    }
    ids
}

/// Whether `c` has a meaning of its own in a `LIKE` pattern whose escape
/// character is the backslash.
pub open spec fn is_like_special(c: char) -> bool {
    c == '%' || c == '_' || c == '\\'
}

/// `text` with a backslash put before each `%`, `_` and backslash, so that a
/// `LIKE ... ESCAPE '\'` pattern matches it literally.
pub open spec fn escape_like(text: Seq<char>) -> Seq<char>
    decreases text.len(),
{
    if text.len() == 0 {
        Seq::empty()
    } else if is_like_special(text.last()) {
        escape_like(text.drop_last()).push('\\').push(text.last())
    } else {
        escape_like(text.drop_last()).push(text.last())
    }
}

/// The SQL `LIKE` pattern (escape character: backslash) that matches titles
/// containing `query` as written, wildcards in it included.
pub fn search_pattern(query: &str) -> (r: String)
    ensures
        r@ == "%"@ + escape_like(query@) + "%"@,
{
    let mut r = String::from_str("%");
    let n = query.unicode_len();
    let ghost s = query@;
    let mut i: usize = 0;
    while i < n
        invariant
            n == s.len(),
            s == query@,
            i <= n,
            r@ == "%"@ + escape_like(s.subrange(0, i as int)),
        decreases n - i,
    {
        let c = query.get_char(i);
        proof {
            assert(s.subrange(0, i + 1).drop_last() =~= s.subrange(0, i as int));
            assert(s.subrange(0, i + 1).last() == c);
        }
        if c == '%' || c == '_' || c == '\\' {
            push_char(&mut r, '\\');
        }
        push_char(&mut r, c);
        i += 1;
    }
    proof {
        assert(s.subrange(0, n as int) =~= s);
    }
    push_char(&mut r, '%');
    proof {
        reveal_strlit("%");
        assert(r@ =~= "%"@ + escape_like(s) + "%"@);
    }
    r
}

/// Whether `db_path` names the in-memory database rather than a file.
pub fn is_in_memory(db_path: &str) -> (r: bool)
    ensures
        r == (db_path@ == ":memory:"@),
{
    same_text(db_path, ":memory:")
}

/// The address that opens (creating when missing) the database at `db_path`.
pub fn connection_url(db_path: &str) -> (r: String)
    ensures
        r@ == "sqlite://"@ + db_path@ + "?mode=rwc"@,
{
    String::from_str("sqlite://").concat(db_path).concat("?mode=rwc")
}

} // verus!

//! Refresh of the home screen: the current anime season, what a category
//! refresh must do, and which stored entries fill the personal rows.

use vstd::prelude::*;
use crate::anime::{Anime, AnimeView};
use crate::error::AppError;
use crate::state::anime_views;
use crate::store::{Category, ContinueEntry, category_of_key};

verus! {

/// Division rounding toward zero, as Rust's integer `/` does.
pub open spec fn div_toward_zero(a: int, b: int) -> int {
    if a >= 0 { a / b } else { -((-a) / b) }
}

/// The remainder that goes with [`div_toward_zero`], as Rust's `%` does.
pub open spec fn rem_toward_zero(a: int, b: int) -> int {
    a - b * div_toward_zero(a, b)
}

/// Whole days since the epoch (toward zero for earlier instants).
pub open spec fn days_since_epoch(unix_ts: i64) -> int {
    div_toward_zero(unix_ts as int, 86400)
}

/// The approximate year: days counted in 365-day years from 1970.
pub open spec fn approx_year(unix_ts: i64) -> int {
    1970 + div_toward_zero(days_since_epoch(unix_ts), 365)
}

/// The day within the approximate year (negative before the epoch).
pub open spec fn approx_day_of_year(unix_ts: i64) -> int {
    rem_toward_zero(days_since_epoch(unix_ts), 365)
}

/// The rough month of a day of the year.
pub open spec fn month_of_day(d: int) -> int {
    if 0 <= d <= 30 {
        1
    } else if 31 <= d <= 58 {
        2
    } else if 59 <= d <= 89 {
        3
    } else if 90 <= d <= 119 {
        4
    } else if 120 <= d <= 150 {
        5
    } else if 151 <= d <= 180 {
        6
    } else if 181 <= d <= 211 {
        7
    } else if 212 <= d <= 242 {
        8
    } else if 243 <= d <= 272 {
        9
    } else if 273 <= d <= 303 {
        10
    } else if 304 <= d <= 333 {
        11
    } else {
        12
    }
}

/// The anime season of a month: WINTER for January to March, SPRING for
/// April to June, SUMMER for July to September, FALL otherwise.
pub open spec fn season_of_month(m: int) -> Seq<char> {
    if 1 <= m <= 3 {
        "WINTER"@
    } else if 4 <= m <= 6 {
        "SPRING"@
    } else if 7 <= m <= 9 {
        "SUMMER"@
    } else {
        "FALL"@
    }
}

fn month_from_day(d: i64) -> (m: i64)
    ensures
        m == month_of_day(d as int),
{
    if 0 <= d && d <= 30 {
        1
    } else if 31 <= d && d <= 58 {
        2
    } else if 59 <= d && d <= 89 {
        3
    } else if 90 <= d && d <= 119 {
        4
    } else if 120 <= d && d <= 150 {
        5
    } else if 151 <= d && d <= 180 {
        6
    } else if 181 <= d && d <= 211 {
        7
    } else if 212 <= d && d <= 242 {
        8
    } else if 243 <= d && d <= 272 {
        9
    } else if 273 <= d && d <= 303 {
        10
    } else if 304 <= d && d <= 333 {
        11
    } else {
        12
    }
}

fn div_zero_i64(a: i64, b: i64) -> (q: i64)
    requires
        b > 1,
    ensures
        q == div_toward_zero(a as int, b as int),
{
    if a >= 0 {
        a / b
    } else {
        let pos: i128 = -(a as i128);
        let q: i128 = pos / (b as i128);
        assert(q <= pos);
        (-q) as i64
    }
}

/// The anime season and approximate year of a unix timestamp.
pub fn season_from_timestamp(unix_ts: i64) -> (r: (String, i64))
    ensures
        r.0@ == season_of_month(month_of_day(approx_day_of_year(unix_ts))),
        r.1 == approx_year(unix_ts),
{
    let total_days = div_zero_i64(unix_ts, 86400);
    let years = div_zero_i64(total_days, 365);
    let year = 1970 + years;
    let day_of_year = total_days - 365 * years;
    let month = month_from_day(day_of_year);
    let season = if 1 <= month && month <= 3 {
        String::from_str("WINTER")
    } else if 4 <= month && month <= 6 {
        String::from_str("SPRING")
    } else if 7 <= month && month <= 9 {
        String::from_str("SUMMER")
    } else {
        String::from_str("FALL")
    };
    (season, year)
}

/// Season boundaries: from the epoch on, the first 90 days of each
/// 365-day year are WINTER, the next 91 SPRING, the next 92 SUMMER and the
/// rest FALL.
pub proof fn law_season_boundaries(unix_ts: i64)
    requires
        unix_ts >= 0,
    ensures
        0 <= approx_day_of_year(unix_ts) < 365,
        ({
            let d = approx_day_of_year(unix_ts);
            let s = season_of_month(month_of_day(d));
            &&& (d <= 89 ==> s == "WINTER"@)
            &&& (90 <= d <= 180 ==> s == "SPRING"@)
            &&& (181 <= d <= 272 ==> s == "SUMMER"@)
            &&& (273 <= d ==> s == "FALL"@)
        }),
        approx_year(unix_ts) >= 1970,
{
}

/// From the epoch on, the year is 1970 plus the whole 365-day years
/// elapsed, and it goes with the day of the year that picks the season:
/// 365 days per year since 1970 plus the day of the year give back the
/// whole days elapsed.
pub proof fn law_year_counts_whole_years(unix_ts: i64)
    requires
        unix_ts >= 0,
    ensures
        approx_year(unix_ts) == 1970 + (unix_ts as int / 86400) / 365,
        365 * (approx_year(unix_ts) - 1970) + approx_day_of_year(unix_ts) == unix_ts as int / 86400,
        0 <= approx_day_of_year(unix_ts) < 365,
{
}

/// A catalogue request that refreshes one category.
#[derive(Debug, Clone, PartialEq, Eq)]
pub enum FetchRequest {
    Trending,
    Popular,
    TopRated,
    Seasonal { season: String, year: i64 },
}

/// What refreshing a category does first.
#[derive(Debug, Clone, PartialEq, Eq)]
pub enum SyncStep {
    /// The cache is fresh: read the stored list.
    UseCache,
    /// Fetch from the catalogue, store the result, then read the list.
    Fetch(FetchRequest),
    /// The category is unknown.
    Fail(AppError),
}

/// The first step of refreshing `category` at `now`: a fresh cache is read
/// as it is; a stale one is fetched with the request of its category (the
/// current season for the seasonal row); an unknown stale category fails.
pub open spec fn sync_step_for(category: Seq<char>, stale: bool, now: i64, step: SyncStep) -> bool {
    if !stale {
        step == SyncStep::UseCache
    } else {
        match category_of_key(category) {
            Some(Category::Trending) => step == SyncStep::Fetch(FetchRequest::Trending),
            Some(Category::Popular) => step == SyncStep::Fetch(FetchRequest::Popular),
            Some(Category::TopRated) => step == SyncStep::Fetch(FetchRequest::TopRated),
            Some(Category::Seasonal) => match step {
                SyncStep::Fetch(FetchRequest::Seasonal { season, year }) => {
                    &&& season@ == season_of_month(month_of_day(approx_day_of_year(now)))
                    &&& year == approx_year(now)
                },
                _ => false,
            },
            None => match step {
                SyncStep::Fail(AppError::Parse(msg)) => msg@ == "Unknown category: "@ + category,
                _ => false,
            },
        }
    }
}

/// Decides the first step of refreshing `category`, given whether its
/// cache is stale.
pub fn plan_category_sync(category: &str, stale: bool, now: i64) -> (step: SyncStep)
    ensures
        sync_step_for(category@, stale, now, step),
{
    if !stale {
        return SyncStep::UseCache;
    }
    match Category::from_key(category) {
        Some(Category::Trending) => SyncStep::Fetch(FetchRequest::Trending),
        Some(Category::Popular) => SyncStep::Fetch(FetchRequest::Popular),
        Some(Category::TopRated) => SyncStep::Fetch(FetchRequest::TopRated),
        Some(Category::Seasonal) => {
            let (season, year) = season_from_timestamp(now);
            SyncStep::Fetch(FetchRequest::Seasonal { season, year })
        },
        None => {
            let msg = String::from_str("Unknown category: ").concat(category);
            SyncStep::Fail(AppError::Parse(msg))
        },
    }
}

/// How many entries the personal rows show.
pub const PERSONAL_ROW_LIMIT: usize = 20;

/// The ids of the most recent continue-watching entries, at most 20, in
/// the order given.
pub fn continue_watching_ids(entries: &Vec<ContinueEntry>) -> (ids: Vec<i64>)
    ensures
        ids@.len() == if entries@.len() < 20 { entries@.len() } else { 20 },
        forall|i: int| 0 <= i < ids@.len() ==> #[trigger] ids@[i] == entries@[i].anime_id,
{
    let mut ids: Vec<i64> = Vec::new();
    let mut i: usize = 0;
    while i < entries.len() && i < PERSONAL_ROW_LIMIT
        invariant
            i <= entries@.len(),
            i <= 20,
            ids@.len() == i,
            forall|k: int| 0 <= k < i ==> #[trigger] ids@[k] == entries@[k].anime_id,
        decreases entries.len() - i,
    {
        ids.push(entries[i].anime_id);
        i += 1;
    }
    ids
}

/// The first 20 watchlist ids, in the order given.
pub fn watchlist_ids(ids: &Vec<i64>) -> (r: Vec<i64>)
    ensures
        r@ == ids@.take(if ids@.len() < 20 { ids@.len() as int } else { 20 }),
{
    let mut r: Vec<i64> = Vec::new();
    let mut i: usize = 0;
    while i < ids.len() && i < PERSONAL_ROW_LIMIT
        invariant
            i <= ids@.len(),
            i <= 20,
            r@ == ids@.take(i as int),
        decreases ids.len() - i,
    {
        r.push(ids[i]);
        i += 1;
        assert(r@ =~= ids@.take(i as int));
    }
    r
}

/// The anime found among `found`, in order, dropping the missing ones.
pub open spec fn present(found: Seq<Option<Anime>>) -> Seq<AnimeView>
    decreases found.len(),
{
    if found.len() == 0 {
        Seq::empty()
    } else {
        let rest = present(found.drop_last());
        match found.last() {
            Some(a) => rest.push(a@),
            None => rest,
        }
    }
}

/// Keeps the anime that were found, in order.
pub fn keep_found(found: Vec<Option<Anime>>) -> (r: Vec<Anime>)
    ensures
        anime_views(r@) == present(found@),
{
    let ghost all = found@;
    let mut found = found;
    let mut rev: Vec<Option<Anime>> = Vec::new();
    while found.len() > 0
        invariant
            found@.len() + rev@.len() == all.len(),
            found@ == all.subrange(0, found@.len() as int),
            forall|j: int| 0 <= j < rev@.len() ==> rev@[j] == all[all.len() - 1 - j],
        decreases found.len(),
    {
        let x = found.pop().unwrap();
        rev.push(x);
    }
    let mut r: Vec<Anime> = Vec::new();
    while rev.len() > 0
        invariant
            forall|j: int| 0 <= j < rev@.len() ==> rev@[j] == all[all.len() - 1 - j],
            anime_views(r@) == present(all.subrange(0, all.len() - rev@.len())),
            rev@.len() <= all.len(),
        decreases rev.len(),
    {
        let ghost done = all.len() - rev@.len();
        let x = rev.pop().unwrap();
        assert(all.subrange(0, done + 1).drop_last() =~= all.subrange(0, done));
        match x {
            Some(a) => {
                r.push(a);
                assert(anime_views(r@) =~= present(all.subrange(0, done + 1)));
            },
            None => {},
        }
    }
    assert(all.subrange(0, all.len() as int) =~= all);
    r
}

} // verus!

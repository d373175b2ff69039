//! Data of the home screen and the choices behind its layout: which rows
//! show, which card the banner features, and how labels are shortened.

use vstd::prelude::*;
use std::collections::HashMap;
use crate::anime::{Anime, AnimeView, ellipsis};
use crate::state::{AppState, CategoryRow, anime_views, offset_of};

verus! {

/// All data needed to render the home screen.
pub struct HomeData {
    pub featured: Option<Anime>,
    pub continue_watching: Vec<Anime>,
    pub watchlist: Vec<Anime>,
    pub recommended: Vec<Anime>,
    pub recommended_reasons: HashMap<i64, String>,
    pub trending: Vec<Anime>,
    pub popular: Vec<Anime>,
    pub top_rated: Vec<Anime>,
    pub seasonal: Vec<Anime>,
}

/// The rows of the home screen, from top to bottom.
pub open spec fn row_order() -> Seq<CategoryRow> {
    seq![
        CategoryRow::ContinueWatching,
        CategoryRow::Watchlist,
        CategoryRow::Recommended,
        CategoryRow::Trending,
        CategoryRow::Popular,
        CategoryRow::TopRated,
        CategoryRow::Seasonal,
    ]
}

/// The key under which each row keeps its scroll offset.
pub open spec fn row_key_of(row: CategoryRow) -> Seq<char> {
    match row {
        CategoryRow::ContinueWatching => "continue_watching"@,
        CategoryRow::Watchlist => "watchlist"@,
        CategoryRow::Recommended => "recommended"@,
        CategoryRow::Trending => "trending"@,
        CategoryRow::Popular => "popular"@,
        CategoryRow::TopRated => "top_rated"@,
        CategoryRow::Seasonal => "seasonal"@,
    }
}

/// The offset key of a home row.
pub fn row_key(row: CategoryRow) -> (r: &'static str)
    ensures
        r@ == row_key_of(row),
{
    match row {
        CategoryRow::ContinueWatching => "continue_watching",
        CategoryRow::Watchlist => "watchlist",
        CategoryRow::Recommended => "recommended",
        CategoryRow::Trending => "trending",
        CategoryRow::Popular => "popular",
        CategoryRow::TopRated => "top_rated",
        CategoryRow::Seasonal => "seasonal",
    }
}

/// A shortened label: at most `max_chars` characters, ending in an
/// ellipsis when cut.
pub open spec fn truncated(t: Seq<char>, max_chars: usize) -> Seq<char> {
    if t.len() <= max_chars {
        t
    } else {
        let keep: int = if max_chars >= 1 { max_chars - 1 } else { 0 };
        t.subrange(0, keep).push(ellipsis())
    }
}

/// Shortens a recommendation reason to `max_chars` characters.
pub fn truncate_reason(reason: &str, max_chars: usize) -> (r: String)
    ensures
        r@ == truncated(reason@, max_chars),
{
    let n = reason.unicode_len();
    if n <= max_chars {
        String::from_str(reason)
    } else {
        let keep: usize = if max_chars >= 1 { max_chars - 1 } else { 0 };
        let mut s = String::from_str(reason.substring_char(0, keep));
        s.append("\u{2026}");
        proof {
            reveal_strlit("\u{2026}");
            assert(s@ =~= truncated(reason@, max_chars));
        }
        s
    }
}

/// A shortened label is never longer than asked, except that one
/// character is kept for the ellipsis when nothing else fits.
pub proof fn law_truncated_length(t: Seq<char>, max_chars: usize)
    ensures
        truncated(t, max_chars).len() <= if max_chars >= 1 { max_chars as int } else { 1 },
        t.len() <= max_chars ==> truncated(t, max_chars) == t,
{
}

impl HomeData {
    /// The home data before anything is loaded: no featured anime, every
    /// row empty.
    pub fn empty() -> (r: Self)
        ensures
            r.featured is None,
            r.continue_watching@.len() == 0,
            r.watchlist@.len() == 0,
            r.recommended@.len() == 0,
            r.recommended_reasons@ == Map::<i64, String>::empty(),
            r.trending@.len() == 0,
            r.popular@.len() == 0,
            r.top_rated@.len() == 0,
            r.seasonal@.len() == 0,
    {
        HomeData {
            featured: None,
            continue_watching: Vec::new(),
            watchlist: Vec::new(),
            recommended: Vec::new(),
            recommended_reasons: HashMap::new(),
            trending: Vec::new(),
            popular: Vec::new(),
            top_rated: Vec::new(),
            seasonal: Vec::new(),
        }
    }

    /// Assembles the home data from the refreshed rows; a row that failed
    /// to load is empty, and the banner features the first trending anime.
    pub fn from_rows(
        trending: Option<Vec<Anime>>,
        popular: Option<Vec<Anime>>,
        top_rated: Option<Vec<Anime>>,
        seasonal: Option<Vec<Anime>>,
        continue_watching: Option<Vec<Anime>>,
        watchlist: Option<Vec<Anime>>,
    ) -> (r: Self)
        ensures
            anime_views(r.trending@) == or_empty(trending),
            anime_views(r.popular@) == or_empty(popular),
            anime_views(r.top_rated@) == or_empty(top_rated),
            anime_views(r.seasonal@) == or_empty(seasonal),
            anime_views(r.continue_watching@) == or_empty(continue_watching),
            anime_views(r.watchlist@) == or_empty(watchlist),
            r.recommended@.len() == 0,
            r.recommended_reasons@ == Map::<i64, String>::empty(),
            match r.featured {
                Some(a) => or_empty(trending).len() > 0 && a@ == or_empty(trending)[0],
                None => or_empty(trending).len() == 0,
            },
    {
        let trending = unwrap_rows(trending);
        let featured = if trending.len() > 0 {
            Some(trending[0].clone())
        } else {
            None
        };
        HomeData {
            featured,
            continue_watching: unwrap_rows(continue_watching),
            watchlist: unwrap_rows(watchlist),
            recommended: Vec::new(),
            recommended_reasons: HashMap::new(),
            trending,
            popular: unwrap_rows(popular),
            top_rated: unwrap_rows(top_rated),
            seasonal: unwrap_rows(seasonal),
        }
    }

    /// The anime of a row.
    pub fn row(&self, row: CategoryRow) -> (r: &Vec<Anime>)
        ensures
            r == self.row_spec(row),
    {
        match row {
            CategoryRow::ContinueWatching => &self.continue_watching,
            CategoryRow::Watchlist => &self.watchlist,
            CategoryRow::Recommended => &self.recommended,
            CategoryRow::Trending => &self.trending,
            CategoryRow::Popular => &self.popular,
            CategoryRow::TopRated => &self.top_rated,
            CategoryRow::Seasonal => &self.seasonal,
        }
    }

    pub open spec fn row_spec(&self, row: CategoryRow) -> &Vec<Anime> {
        match row {
            CategoryRow::ContinueWatching => &self.continue_watching,
            CategoryRow::Watchlist => &self.watchlist,
            CategoryRow::Recommended => &self.recommended,
            CategoryRow::Trending => &self.trending,
            CategoryRow::Popular => &self.popular,
            CategoryRow::TopRated => &self.top_rated,
            CategoryRow::Seasonal => &self.seasonal,
        }
    }

    /// The rows that have anime, in screen order.
    pub open spec fn visible_rows_spec(&self) -> Seq<CategoryRow> {
        row_order().filter(|row: CategoryRow| self.row_spec(row)@.len() > 0)
    }

    /// The rows that have anime, in screen order.
    pub fn visible_rows(&self) -> (r: Vec<CategoryRow>)
        ensures
            r@ == self.visible_rows_spec(),
    {
        let mut r: Vec<CategoryRow> = Vec::new();
        let all = [
            CategoryRow::ContinueWatching,
            CategoryRow::Watchlist,
            CategoryRow::Recommended,
            CategoryRow::Trending,
            CategoryRow::Popular,
            CategoryRow::TopRated,
            CategoryRow::Seasonal,
        ];
        assert(all@ =~= row_order());
        let ghost keep = |row: CategoryRow| self.row_spec(row)@.len() > 0;
        let mut i: usize = 0;
        while i < 7
            invariant
                i <= 7,
                all@ == row_order(),
                keep == (|row: CategoryRow| self.row_spec(row)@.len() > 0),
                r@ == row_order().take(i as int).filter(keep),
            decreases 7 - i,
        {
            let row = all[i];
            proof {
                assert(row_order().take(i + 1) =~= row_order().take(i as int).push(row));
                row_order().take(i as int).lemma_filter_push(row, keep);
            }
            if self.row(row).len() > 0 {
                r.push(row);
            }
            i += 1;
        }
        assert(row_order().take(7) =~= row_order());
        r
    }
}

/// The anime of a refreshed row, empty when it failed to load.
pub open spec fn or_empty(rows: Option<Vec<Anime>>) -> Seq<AnimeView> {
    match rows {
        Some(v) => anime_views(v@),
        None => Seq::empty(),
    }
}

fn unwrap_rows(rows: Option<Vec<Anime>>) -> (r: Vec<Anime>)
    ensures
        anime_views(r@) == or_empty(rows),
{
    match rows {
        Some(v) => v,
        None => {
            let v: Vec<Anime> = Vec::new();
            assert(anime_views(v@) =~= Seq::<AnimeView>::empty());
            v
        },
    }
}

/// The anime that the banner features for the row under the cursor: the
/// card at the row's scroll offset, when there is one.
pub fn active_banner_anime<'a>(state: &AppState, data: &'a HomeData) -> (r: Option<&'a Anime>)
    ensures
        ({
            let items = data.row_spec(state.active_row)@;
            let off = offset_of(state.row_offsets@, row_key_of(state.active_row));
            match r {
                Some(a) => off < items.len() && *a == items[off as int],
                None => off >= items.len(),
            }
        }),
{
    let items = data.row(state.active_row);
    let off = state.row_offset(row_key(state.active_row));
    if off < items.len() {
        Some(&items[off])
    } else {
        None
    }
}

/// The rows drawn when `shown` rows fit: a window of consecutive visible
/// rows that ends at the active one when it lies below the first screenful.
pub open spec fn first_row_shown(active_index: usize, shown: usize) -> usize {
    let back: int = if shown >= 1 { shown - 1 } else { 0 };
    if active_index >= back { (active_index - back) as usize } else { 0 }
}

/// How many of `count` rows of `row_height` cells fit in `height` cells
/// (at least one).
pub open spec fn rows_shown(count: nat, height: u16, row_height: u16) -> usize {
    let fit: int = if height / row_height >= 1 { (height / row_height) as int } else { 1 };
    (if count <= fit { count as int } else { fit }) as usize
}

/// `i` is where `x` first occurs in `s`.
pub open spec fn is_first_position(s: Seq<CategoryRow>, x: CategoryRow, i: int) -> bool {
    0 <= i < s.len() && s[i] == x && forall|j: int| 0 <= j < i ==> s[j] != x
}

/// Where `x` first occurs in `s`, 0 when it does not occur.
pub open spec fn active_position(s: Seq<CategoryRow>, x: CategoryRow) -> int {
    if exists|i: int| is_first_position(s, x, i) {
        choose|i: int| is_first_position(s, x, i)
    } else {
        0
    }
}

/// The row that the cursor lands on when moved one row down (`down`) or up
/// among `rows`: the neighbour of the active row, staying put at either end;
/// the first row when the active one is not among them; the active row when
/// there are none.
pub open spec fn row_moved(rows: Seq<CategoryRow>, active: CategoryRow, down: bool) -> CategoryRow {
    if rows.len() == 0 {
        active
    } else if !(exists|i: int| is_first_position(rows, active, i)) {
        rows[0]
    } else {
        let p = active_position(rows, active);
        if down {
            if p + 1 < rows.len() { rows[p + 1] } else { rows[p] }
        } else {
            if p > 0 { rows[p - 1] } else { rows[p] }
        }
    }
}

/// Moves the row cursor one row down (`down`) or up among `rows`.
pub fn moved_row(rows: &Vec<CategoryRow>, active: CategoryRow, down: bool) -> (r: CategoryRow)
    ensures
        r == row_moved(rows@, active, down),
{
    let count = rows.len();
    if count == 0 {
        return active;
    }
    let mut i: usize = 0;
    while i < count
        invariant
            count == rows@.len(),
            i <= count,
            forall|j: int| 0 <= j < i ==> rows@[j] != active,
        decreases count - i,
    {
        if rows[i] == active {
            proof {
                assert(is_first_position(rows@, active, i as int));
                let c = choose|k: int| is_first_position(rows@, active, k);
                assert(is_first_position(rows@, active, c));
                assert(c == i as int);
            }
            if down {
                if i + 1 < count {
                    return rows[i + 1];
                } else {
                    return rows[i];
                }
            } else {
                if i > 0 {
                    return rows[i - 1];
                } else {
                    return rows[i];
                }
            }
        }
        i += 1;
    }
    proof {
        assert forall|k: int| !is_first_position(rows@, active, k) by {
            if 0 <= k < rows@.len() {
                assert(rows@[k] != active);
            }
        }
    }
    rows[0]
}

/// Chooses which visible rows are drawn in an area `height` cells tall:
/// returns the index of the first row drawn and how many are drawn.
pub fn row_window(visible: &Vec<CategoryRow>, active: CategoryRow, height: u16, row_height: u16) -> (r: (usize, usize))
    requires
        row_height > 0,
        visible@.len() <= u16::MAX,
    ensures
        r.1 == rows_shown(visible@.len(), height, row_height),
        r.0 == first_row_shown(active_position(visible@, active) as usize, r.1),
{
    let fit: u16 = if height / row_height >= 1 { height / row_height } else { 1 };
    let count = visible.len();
    let shown: usize = if count <= fit as usize { count } else { fit as usize };
    let mut active_index: usize = 0;
    let mut i: usize = 0;
    let mut found = false;
    while i < count
        invariant
            count == visible@.len(),
            i <= count,
            !found ==> active_index == 0,
            !found ==> forall|j: int| 0 <= j < i ==> visible@[j] != active,
            found ==> active_index < count && visible@[active_index as int] == active
                && forall|j: int| 0 <= j < active_index ==> visible@[j] != active,
        decreases count - i,
    {
        if !found && visible[i] == active {
            found = true;
            active_index = i;
        }
        i += 1;
    }
    proof {
        if found {
            assert(is_first_position(visible@, active, active_index as int));
            let c = choose|i: int| is_first_position(visible@, active, i);
            assert(is_first_position(visible@, active, c));
            assert(c == active_index);
            assert(active_position(visible@, active) == active_index as int);
        } else {
            assert(!exists|i: int| is_first_position(visible@, active, i));
            assert(active_position(visible@, active) == 0);
            assert(active_index == 0);
        }
    }
    let back: usize = if shown >= 1 { shown - 1 } else { 0 };
    let first = if active_index >= back { active_index - back } else { 0 };
    (first, shown)
}

/// A home row is shown exactly when it holds at least one anime, for each
/// of the seven rows.
pub proof fn law_visible_rows_are_the_nonempty_rows(data: HomeData, row: CategoryRow)
    ensures
        data.visible_rows_spec().contains(row) <==> data.row_spec(row)@.len() > 0,
{
    let keep = |r: CategoryRow| data.row_spec(r)@.len() > 0;
    let all = row_order();
    all.filter_lemma(keep);
    let k: int = match row {
        CategoryRow::ContinueWatching => 0,
        CategoryRow::Watchlist => 1,
        CategoryRow::Recommended => 2,
        CategoryRow::Trending => 3,
        CategoryRow::Popular => 4,
        CategoryRow::TopRated => 5,
        CategoryRow::Seasonal => 6,
    };
    assert(all[k] == row);
    if data.visible_rows_spec().contains(row) {
        let j = choose|j: int| 0 <= j < all.filter(keep).len() && all.filter(keep)[j] == row;
        assert(keep(all.filter(keep)[j]));
    }
}

} // verus!

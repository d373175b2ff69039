//! Application state: the screen being shown, the detail-screen history,
//! the per-row scroll offsets and the playback log, with every transition
//! of the user interface.

use vstd::prelude::*;
use std::collections::{HashMap, HashSet};
use crate::anime::{Anime, AnimeView, clone_opt_string, opt_text, playback_queries_of};
use crate::home::{HomeData, active_banner_anime, moved_row, row_key, row_key_of, row_moved};

verus! {

#[verifier::external_type_specification]
#[verifier::external_body]
#[verifier::reject_recursive_types(T)]
pub struct ExOneshotSender<T>(tokio::sync::oneshot::Sender<T>);

/// Signals the background player task with `tokio::sync::oneshot::Sender::send`.
/// Whether the receiving task is still listening is not stated.
#[verifier::external_body]
fn send_stop(tx: tokio::sync::oneshot::Sender<()>) {
    let _ = tx.send(());
}

/// Copies a set of episode numbers with `HashSet::clone`, which yields a set
/// holding the same elements.
#[verifier::external_body]
fn clone_episode_set(s: &HashSet<u32>) -> (r: HashSet<u32>)
    ensures
        r@ == s@,
{
    s.clone()
}

/// Which screen is currently active.
#[derive(Debug, Clone, Copy, PartialEq, Eq, Structural)]
pub enum Screen {
    /// Home screen: category rows and featured banner.
    Home,
    /// Detail screen: full info and episode list of one anime.
    Detail,
    /// Playback query picker shown on top of Detail.
    PlaybackQuery,
    /// Playback options shown on top of Detail.
    PlaybackOptions,
    /// Playback screen: log stream and controls.
    Playback,
    /// Search overlay.
    Search,
    /// Help overlay.
    Help,
    /// Settings overlay.
    Settings,
    /// Dependency / onboarding overlay.
    Setup,
}

/// Which category row the cursor is on (Home screen).
#[derive(Debug, Clone, Copy, PartialEq, Eq, Structural)]
pub enum CategoryRow {
    ContinueWatching,
    Watchlist,
    Recommended,
    Trending,
    Popular,
    TopRated,
    Seasonal,
}

/// Which section is focused on the Detail screen.
#[derive(Debug, Clone, Copy, PartialEq, Eq, Structural)]
pub enum DetailFocus {
    Episodes,
    Related,
}

/// The image protocol that the terminal offers.
#[derive(Debug, Clone, Copy, PartialEq, Eq, Structural)]
pub enum ImageProtocol {
    Halfblocks,
    Sixel,
    Kitty,
    Iterm2,
}

/// A key press as the interface loop sees it.
#[derive(Debug, Clone, Copy, PartialEq, Eq, Structural)]
pub enum Key {
    Char(char),
    Enter,
    Esc,
    Up,
    Down,
    Left,
    Right,
    Other,
}

/// What the interface loop still has to do after a key press: the outside
/// work (database, network, player) that the state change asks for.
#[derive(Debug, Clone, Copy, PartialEq, Eq, Structural)]
pub enum KeyAction {
    /// Nothing beyond the state change.
    Nothing,
    /// Refresh the home rows.
    Refresh,
    /// Load the watched episodes and watchlist status of this anime.
    LoadDetail(i64),
    /// Play this episode of the selected anime.
    Play(u32),
    /// Add this anime to the watchlist.
    AddToWatchlist(i64),
    /// Remove this anime from the watchlist.
    RemoveFromWatchlist(i64),
}

/// Horizontal card offset of each named row; a row never scrolled has none.
pub struct RowOffsets {
    entries: Vec<(String, usize)>,
}

impl RowOffsets {
    #[verifier::type_invariant]
    spec fn keys_unique(self) -> bool {
        forall|i: int, j: int|
            0 <= i < j < self.entries@.len() ==> self.entries@[i].0@ != self.entries@[j].0@
    }

    spec fn has_key_at(self, k: Seq<char>, i: int) -> bool {
        0 <= i < self.entries@.len() && self.entries@[i].0@ == k
    }

    pub fn new() -> (r: Self)
        ensures
            r@ == Map::<Seq<char>, usize>::empty(),
    {
        let r = RowOffsets { entries: Vec::new() };
        assert(r@ =~= Map::<Seq<char>, usize>::empty());
        r
    }

    proof fn lemma_lookup(self, k: Seq<char>, i: int)
        requires
            self.keys_unique(),
            self.has_key_at(k, i),
        ensures
            self@.contains_key(k),
            self@[k] == self.entries@[i].1,
    {
        let j = choose|j: int| self.has_key_at(k, j);
        assert(self.has_key_at(k, j));
    }

    fn find(&self, key: &String) -> (r: Option<usize>)
        ensures
            match r {
                Some(i) => self.has_key_at(key@, i as int),
                None => !self@.contains_key(key@),
            },
    {
        let mut i: usize = 0;
        while i < self.entries.len()
            invariant
                i <= self.entries@.len(),
                forall|j: int| 0 <= j < i ==> self.entries@[j].0@ != key@,
            decreases self.entries.len() - i,
        {
            if self.entries[i].0 == *key {
                return Some(i);
            }
            i += 1;
        }
        None
    }

    /// The offset of `row`, 0 when the row has none.
    pub fn get(&self, row: &str) -> (r: usize)
        ensures
            r == (if self@.contains_key(row@) { self@[row@] } else { 0 }),
    {
        proof { use_type_invariant(self); }
        let key = String::from_str(row);
        match self.find(&key) {
            Some(i) => {
                proof { self.lemma_lookup(row@, i as int); }
                self.entries[i].1
            },
            None => 0,
        }
    }

    /// Sets the offset of `row`.
    pub fn set(&mut self, row: &str, value: usize)
        ensures
            final(self)@ == old(self)@.insert(row@, value),
    {
        proof { use_type_invariant(&*self); }
        let key = String::from_str(row);
        let ghost before = *self;
        match self.find(&key) {
            Some(i) => {
                let ghost old_entries = self.entries@;
                let mut entries = Vec::new();
                std::mem::swap(&mut entries, &mut self.entries);
                entries.set(i, (key, value));
                self.entries = entries;
                proof {
                    assert forall|a: int, b: int|
                        0 <= a < b < self.entries@.len() implies self.entries@[a].0@
                        != self.entries@[b].0@ by {
                        assert(before.keys_unique());
                    }
                    assert forall|k: Seq<char>| #[trigger] self@.contains_key(k) == before@.insert(row@, value).contains_key(k) by {
                        if before@.contains_key(k) {
                            let j = choose|j: int| before.has_key_at(k, j);
                            assert(before.has_key_at(k, j));
                            if j == i { assert(self.has_key_at(k, j)); } else { assert(self.has_key_at(k, j)); }
                        }
                        if k == row@ {
                            assert(self.has_key_at(k, i as int));
                        }
                        if self@.contains_key(k) {
                            let j = choose|j: int| self.has_key_at(k, j);
                            assert(self.has_key_at(k, j));
                            if j != i { assert(before.has_key_at(k, j)); }
                        }
                    }
                    assert forall|k: Seq<char>| #[trigger] self@.contains_key(k) implies self@[k] == before@.insert(row@, value)[k] by {
                        let j = choose|j: int| self.has_key_at(k, j);
                        assert(self.has_key_at(k, j));
                        self.lemma_lookup(k, j);
                        if j != i {
                            assert(before.has_key_at(k, j));
                            before.lemma_lookup(k, j);
                        }
                    }
                    assert(self@ =~= before@.insert(row@, value));
                }
            },
            None => {
                let mut entries = Vec::new();
                std::mem::swap(&mut entries, &mut self.entries);
                entries.push((key, value));
                proof {
                    let n = before.entries@.len() as int;
                    assert forall|a: int, b: int|
                        0 <= a < b < entries@.len() implies entries@[a].0@
                        != entries@[b].0@ by {
                        if b == n {
                            assert(before.has_key_at(entries@[a].0@, a));
                        }
                    }
                }
                self.entries = entries;
                proof {
                    let n = before.entries@.len() as int;
                    assert forall|k: Seq<char>| #[trigger] self@.contains_key(k) == before@.insert(row@, value).contains_key(k) by {
                        if before@.contains_key(k) {
                            let j = choose|j: int| before.has_key_at(k, j);
                            assert(before.has_key_at(k, j));
                            assert(self.has_key_at(k, j));
                        }
                        if k == row@ {
                            assert(self.has_key_at(k, n));
                        }
                        if self@.contains_key(k) {
                            let j = choose|j: int| self.has_key_at(k, j);
                            assert(self.has_key_at(k, j));
                            if j != n { assert(before.has_key_at(k, j)); }
                        }
                    }
                    assert forall|k: Seq<char>| #[trigger] self@.contains_key(k) implies self@[k] == before@.insert(row@, value)[k] by {
                        let j = choose|j: int| self.has_key_at(k, j);
                        assert(self.has_key_at(k, j));
                        self.lemma_lookup(k, j);
                        if j != n {
                            assert(before.has_key_at(k, j));
                            before.lemma_lookup(k, j);
                        }
                    }
                    assert(self@ =~= before@.insert(row@, value));
                }
            },
        }
    }
}

impl View for RowOffsets {
    type V = Map<Seq<char>, usize>;

    closed spec fn view(&self) -> Map<Seq<char>, usize> {
        Map::new(
            |k: Seq<char>| exists|i: int| self.has_key_at(k, i),
            |k: Seq<char>| self.entries@[choose|i: int| self.has_key_at(k, i)].1,
        )
    }
}


/// The saved detail screen of an anime, restored when the user backs out of
/// a related drill-down.
pub struct DetailSnapshot {
    pub anime: Anime,
    pub in_watchlist: bool,
    pub watched_episodes: HashSet<u32>,
    pub detail_recommendations: Vec<Anime>,
    pub detail_recommendation_reasons: HashMap<i64, String>,
    pub detail_focus: DetailFocus,
    pub detail_related_cursor: usize,
    pub detail_related_offset: usize,
    pub detail_origin_title: Option<String>,
    pub last_played: Option<String>,
    pub last_played_anime_id: Option<i64>,
}

/// The views of a list of anime.
pub open spec fn anime_views(v: Seq<Anime>) -> Seq<AnimeView> {
    v.map_values(|a: Anime| a@)
}

/// The number of episodes that an episode count gives, as the interface
/// truncates it to 32 bits.
pub open spec fn episode_total(episodes: Option<i64>) -> u32 {
    match episodes {
        Some(n) => n as u32,
        None => 0,
    }
}

/// Episodes 1 to `total`, or just episode 1 when `total` is 0.
pub open spec fn episode_range(total: u32) -> Seq<u32> {
    let n: nat = if total < 1 { 1 } else { total as nat };
    Seq::new(n, |i: int| (i + 1) as u32)
}

/// The first episode of `list` that is not in `watched`.
pub open spec fn first_unwatched(list: Seq<u32>, watched: Set<u32>) -> Option<u32>
    decreases list.len(),
{
    if list.len() == 0 {
        None
    } else if !watched.contains(list[0]) {
        Some(list[0])
    } else {
        first_unwatched(list.drop_first(), watched)
    }
}

/// The next episode to watch: the first unwatched one, else the last one,
/// else episode 1.
pub open spec fn next_unwatched(list: Seq<u32>, watched: Set<u32>) -> u32 {
    match first_unwatched(list, watched) {
        Some(e) => e,
        None => if list.len() > 0 { list.last() } else { 1 },
    }
}

/// The first episode-pill index of the row of ten that shows `episode`.
pub open spec fn pill_page_start(episode: u32) -> usize {
    let prev: int = if episode >= 1 { episode - 1 } else { 0 };
    (prev / 10 * 10) as usize
}

/// The base screen that stays visible under an overlay opened from `s`.
pub open spec fn base_screen(screen: Screen, overlay_base: Screen) -> Screen {
    match screen {
        Screen::Detail | Screen::Playback | Screen::PlaybackQuery | Screen::PlaybackOptions => Screen::Detail,
        Screen::Search | Screen::Help | Screen::Settings | Screen::Setup => overlay_base,
        Screen::Home => Screen::Home,
    }
}

/// The card offset of `row`, 0 when the row has none.
pub open spec fn offset_of(offsets: Map<Seq<char>, usize>, row: Seq<char>) -> usize {
    if offsets.contains_key(row) { offsets[row] } else { 0 }
}

/// One card to the right, unless that passes the last of `max_cards` cards.
pub open spec fn scrolled_right(cur: usize, max_cards: usize) -> usize {
    if cur + 1 < max_cards { (cur + 1) as usize } else { cur }
}

/// One card to the left, stopping at the first.
pub open spec fn scrolled_left(cur: usize) -> usize {
    if cur > 0 { (cur - 1) as usize } else { 0 }
}

/// The full application state passed to every render call.
pub struct AppState {
    /// Currently active screen.
    pub screen: Screen,
    /// Base screen to render under overlays.
    pub overlay_base: Screen,
    /// Home screen: which row the cursor is on.
    pub active_row: CategoryRow,
    /// Home screen: horizontal card index per row.
    pub row_offsets: RowOffsets,
    /// Detail screen: the anime being viewed.
    pub selected_anime: Option<Anime>,
    /// Detail screen: episode numbers 1..=N.
    pub episode_list: Vec<u32>,
    /// Detail screen: which episode is highlighted.
    pub selected_episode: Option<u32>,
    /// Detail screen: episode list scroll offset.
    pub episode_offset: usize,
    /// Search overlay: current input text.
    pub search_query: String,
    /// Search overlay: results list.
    pub search_results: Vec<Anime>,
    /// Search overlay: which result is highlighted.
    pub search_cursor: usize,
    /// Settings overlay: which preference row is focused.
    pub settings_cursor: usize,
    /// Playback query picker: candidate search queries for ani-cli.
    pub playback_queries: Vec<String>,
    /// Playback query picker: selected query index.
    pub playback_query_cursor: usize,
    /// Playback options: selected quality index.
    pub playback_quality_cursor: usize,
    /// Playback options: query chosen before launch.
    pub pending_playback_query: Option<String>,
    /// Playback options: sub/dub mode for the next launch.
    pub pending_dub: bool,
    /// Playback: sender that stops the background player task.
    pub player_stop: Option<tokio::sync::oneshot::Sender<()>>,
    /// Playback: title and episode currently playing.
    pub now_playing: Option<String>,
    /// Playback: log lines from ani-cli.
    pub playback_logs: Vec<String>,
    /// Detail: whether the selected anime is in the watchlist.
    pub in_watchlist: bool,
    /// Cover image: whether a decoded image is ready for `cover_anime_id`.
    pub cover_ready: bool,
    /// Cover image: which anime the current image belongs to.
    pub cover_anime_id: Option<i64>,
    /// Cover image: last anime whose image failed to load.
    pub cover_failed_anime_id: Option<i64>,
    /// The terminal's image protocol, once detected.
    pub image_protocol: Option<ImageProtocol>,
    /// Home banner: watched episode count for an anime.
    pub banner_progress: Option<(i64, usize)>,
    /// Detail screen: "More Like This" recommendations.
    pub detail_recommendations: Vec<Anime>,
    /// Detail screen: reason labels keyed by anime id.
    pub detail_recommendation_reasons: HashMap<i64, String>,
    /// Detail screen: which area receives h/l and Enter.
    pub detail_focus: DetailFocus,
    /// Detail screen: selected "More Like This" card.
    pub detail_related_cursor: usize,
    /// Detail screen: horizontal scroll offset of "More Like This".
    pub detail_related_offset: usize,
    /// Detail screen: breadcrumb title when opened from a recommendation.
    pub detail_origin_title: Option<String>,
    /// Detail screens to return to, most recent last.
    pub detail_history: Vec<DetailSnapshot>,
    /// Runtime dependency status.
    pub has_ani_cli: bool,
    pub has_mpv: bool,
    pub has_iina: bool,
    pub has_vlc: bool,
    /// Toast notification: message and expiry timestamp.
    pub toast: Option<(String, i64)>,
    /// Whether home data is loading.
    pub is_loading: bool,
    /// Whether the app should quit on the next tick.
    pub should_quit: bool,
    /// Detail screen: watched episode numbers of the current anime.
    pub watched_episodes: HashSet<u32>,
    /// Last launched playback label of the session.
    pub last_played: Option<String>,
    /// Which anime the last launched playback belongs to.
    pub last_played_anime_id: Option<i64>,
}

/// The state in which the application starts.
pub open spec fn is_initial(s: AppState) -> bool {
    &&& s.screen == Screen::Home
    &&& s.overlay_base == Screen::Home
    &&& s.active_row == CategoryRow::Trending
    &&& s.row_offsets@ == Map::<Seq<char>, usize>::empty()
    &&& s.selected_anime is None
    &&& s.episode_list@.len() == 0
    &&& s.selected_episode is None
    &&& s.episode_offset == 0
    &&& s.search_query@.len() == 0
    &&& s.search_results@.len() == 0
    &&& s.search_cursor == 0
    &&& s.settings_cursor == 0
    &&& s.playback_queries@.len() == 0
    &&& s.playback_query_cursor == 0
    &&& s.playback_quality_cursor == 0
    &&& s.pending_playback_query is None
    &&& !s.pending_dub
    &&& s.player_stop is None
    &&& s.now_playing is None
    &&& s.playback_logs@.len() == 0
    &&& !s.in_watchlist
    &&& !s.cover_ready
    &&& s.cover_anime_id is None
    &&& s.cover_failed_anime_id is None
    &&& s.image_protocol is None
    &&& s.banner_progress is None
    &&& s.detail_recommendations@.len() == 0
    &&& s.detail_recommendation_reasons@ == Map::<i64, String>::empty()
    &&& s.detail_focus == DetailFocus::Episodes
    &&& s.detail_related_cursor == 0
    &&& s.detail_related_offset == 0
    &&& s.detail_origin_title is None
    &&& s.detail_history@.len() == 0
    &&& s.has_ani_cli
    &&& s.has_mpv
    &&& !s.has_iina
    &&& s.has_vlc
    &&& s.toast is None
    &&& s.is_loading
    &&& !s.should_quit
    &&& s.watched_episodes@ == Set::<u32>::empty()
    &&& s.last_played is None
    &&& s.last_played_anime_id is None
}

/// A toast is showing at `now` when it exists and has not expired.
pub open spec fn toast_live(toast: Option<(String, i64)>, now: i64) -> bool {
    match toast {
        Some((_, expiry)) => now < expiry,
        None => false,
    }
}

/// The message of a toast.
pub open spec fn toast_message(toast: Option<(String, i64)>) -> Seq<char> {
    match toast {
        Some((msg, _)) => msg@,
        None => Seq::empty(),
    }
}

/// The playback log after appending `line`: the oldest line goes once 200
/// lines are kept.
pub open spec fn log_after_push(logs: Seq<String>, line: String) -> Seq<String> {
    if logs.len() >= 200 {
        logs.drop_first().push(line)
    } else {
        logs.push(line)
    }
}

/// `snap` records the detail screen shown in `s`.
pub open spec fn snapshot_of(snap: DetailSnapshot, s: AppState) -> bool {
    &&& s.selected_anime is Some
    &&& snap.anime@ == s.selected_anime->0@
    &&& snap.in_watchlist == s.in_watchlist
    &&& snap.watched_episodes@ == s.watched_episodes@
    &&& anime_views(snap.detail_recommendations@) == anime_views(s.detail_recommendations@)
    &&& snap.detail_recommendation_reasons@ == s.detail_recommendation_reasons@
    &&& snap.detail_focus == s.detail_focus
    &&& snap.detail_related_cursor == s.detail_related_cursor
    &&& snap.detail_related_offset == s.detail_related_offset
    &&& opt_text(snap.detail_origin_title) == opt_text(s.detail_origin_title)
    &&& opt_text(snap.last_played) == opt_text(s.last_played)
    &&& snap.last_played_anime_id == s.last_played_anime_id
}

/// `s` shows the detail screen recorded in `snap`, with the episode list
/// rebuilt and the next unwatched episode selected.
pub open spec fn restored_detail(snap: DetailSnapshot, s: AppState) -> bool {
    &&& snapshot_of(snap, s)
    &&& s.episode_list@ == episode_range(episode_total(snap.anime.episodes))
    &&& s.selected_episode == Some(next_unwatched(s.episode_list@, s.watched_episodes@))
    &&& s.episode_offset == pill_page_start(next_unwatched(s.episode_list@, s.watched_episodes@))
}

/// `new` differs from `old` in the detail-screen fields only.
pub open spec fn only_detail_changed(old: AppState, new: AppState) -> bool {
    new == (AppState {
        selected_anime: new.selected_anime,
        episode_list: new.episode_list,
        selected_episode: new.selected_episode,
        episode_offset: new.episode_offset,
        in_watchlist: new.in_watchlist,
        detail_recommendations: new.detail_recommendations,
        detail_recommendation_reasons: new.detail_recommendation_reasons,
        detail_focus: new.detail_focus,
        detail_related_cursor: new.detail_related_cursor,
        detail_related_offset: new.detail_related_offset,
        detail_origin_title: new.detail_origin_title,
        detail_history: new.detail_history,
        watched_episodes: new.watched_episodes,
        last_played: new.last_played,
        last_played_anime_id: new.last_played_anime_id,
        ..old
    })
}

/// What the Back action does to the state.
pub open spec fn went_back(old: AppState, new: AppState) -> bool {
    match old.screen {
        Screen::Playback | Screen::PlaybackQuery | Screen::PlaybackOptions =>
            new == (AppState { screen: Screen::Detail, ..old }),
        Screen::Detail => if old.detail_history@.len() > 0 {
            &&& new.screen == Screen::Detail
            &&& new.detail_history@ == old.detail_history@.drop_last()
            &&& restored_detail(old.detail_history@.last(), new)
            &&& only_detail_changed(old, new)
        } else {
            new == (AppState { screen: Screen::Home, ..old })
        },
        Screen::Search | Screen::Help | Screen::Settings | Screen::Setup =>
            new == (AppState { screen: old.overlay_base, ..old }),
        Screen::Home => new == (AppState { should_quit: true, ..old }),
    }
}

/// The state once the player is stopped.
pub open spec fn player_stopped(s: AppState) -> AppState {
    AppState { player_stop: None, now_playing: None, ..s }
}

/// `j` or the down arrow.
pub open spec fn is_down(key: Key) -> bool {
    key == Key::Char('j') || key == Key::Down
}

/// `k` or the up arrow.
pub open spec fn is_up(key: Key) -> bool {
    key == Key::Char('k') || key == Key::Up
}

/// `h` or the left arrow.
pub open spec fn is_left(key: Key) -> bool {
    key == Key::Char('h') || key == Key::Left
}

/// `l` or the right arrow.
pub open spec fn is_right(key: Key) -> bool {
    key == Key::Char('l') || key == Key::Right
}

/// What opening the detail screen of `anime` does to the state.
pub open spec fn detail_opened(old: AppState, new: AppState, anime: Anime) -> bool {
    &&& new == (AppState {
        episode_list: new.episode_list,
        selected_episode: Some(1),
        episode_offset: 0,
        cover_anime_id: Some(anime.id),
        cover_ready: old.cover_anime_id == Some(anime.id) && old.cover_ready,
        watched_episodes: new.watched_episodes,
        detail_recommendations: new.detail_recommendations,
        detail_recommendation_reasons: new.detail_recommendation_reasons,
        detail_focus: DetailFocus::Episodes,
        detail_related_cursor: 0,
        detail_related_offset: 0,
        detail_origin_title: None,
        selected_anime: Some(anime),
        screen: Screen::Detail,
        ..old
    })
    &&& new.episode_list@ == episode_range(episode_total(anime.episodes))
    &&& new.watched_episodes@ == Set::<u32>::empty()
    &&& new.detail_recommendations@.len() == 0
    &&& new.detail_recommendation_reasons@ == Map::<i64, String>::empty()
}

/// `new` shows the detail screen of an anime with the content of `anime`.
pub open spec fn detail_opened_like(old: AppState, new: AppState, anime: Anime) -> bool {
    match new.selected_anime {
        Some(a) => a@ == anime@ && detail_opened(old, new, a),
        None => false,
    }
}

/// What opening the search overlay does to the state.
pub open spec fn search_opened(old: AppState, new: AppState) -> bool {
    &&& overlay_opened(old, new, Screen::Search)
    &&& new == (AppState {
        search_query: new.search_query,
        search_results: new.search_results,
        search_cursor: 0,
        overlay_base: new.overlay_base,
        screen: Screen::Search,
        ..old
    })
    &&& new.search_query@.len() == 0
    &&& new.search_results@.len() == 0
}

/// What opening the help overlay does to the state.
pub open spec fn help_opened(old: AppState, new: AppState) -> bool {
    &&& overlay_opened(old, new, Screen::Help)
    &&& new == (AppState { overlay_base: new.overlay_base, screen: Screen::Help, ..old })
}

/// The episode under the cursor of the detail screen (1 when none is).
pub open spec fn episode_cursor(s: AppState) -> u32 {
    match s.selected_episode {
        Some(e) => e,
        None => 1,
    }
}

/// The last episode of the list, 1 when the list is empty.
pub open spec fn last_episode(list: Seq<u32>) -> u32 {
    if list.len() > 0 { list.last() } else { 1 }
}

/// The episode before `cur`, stopping at 1.
pub open spec fn episode_before(cur: u32) -> u32 {
    if cur > 1 { (cur - 1) as u32 } else { cur }
}

/// The episode after `cur`, stopping at the last one of `list`.
pub open spec fn episode_after(cur: u32, list: Seq<u32>) -> u32 {
    if cur < last_episode(list) { (cur + 1) as u32 } else { cur }
}

/// `s` with episode `e` selected and the pills scrolled to show it.
pub open spec fn episode_selected(s: AppState, e: u32) -> AppState {
    AppState { selected_episode: Some(e), episode_offset: pill_page_start(e), ..s }
}

/// A key on the Home screen: `j`/`k` move between the visible rows, `h`/`l`
/// scroll the active row, Enter opens the featured card, `/` searches, `?`
/// shows help and `r` asks for a refresh.
pub open spec fn home_key(old: AppState, new: AppState, key: Key, data: HomeData, act: KeyAction) -> bool {
    let row = old.active_row;
    let k = row_key_of(row);
    if is_down(key) || is_up(key) {
        new == (AppState { active_row: row_moved(data.visible_rows_spec(), row, is_down(key)), ..old })
            && act == KeyAction::Nothing
    } else if is_left(key) {
        &&& new == (AppState { row_offsets: new.row_offsets, ..old })
        &&& new.row_offsets@ == old.row_offsets@.insert(k, scrolled_left(offset_of(old.row_offsets@, k)))
        &&& act == KeyAction::Nothing
    } else if is_right(key) {
        &&& new == (AppState { row_offsets: new.row_offsets, ..old })
        &&& new.row_offsets@ == old.row_offsets@.insert(
            k,
            scrolled_right(offset_of(old.row_offsets@, k), data.row_spec(row)@.len() as usize),
        )
        &&& act == KeyAction::Nothing
    } else if key == Key::Enter {
        let items = data.row_spec(row)@;
        let off = offset_of(old.row_offsets@, k);
        if off < items.len() {
            detail_opened_like(old, new, items[off as int]) && act == KeyAction::LoadDetail(items[off as int].id)
        } else {
            new == old && act == KeyAction::Nothing
        }
    } else if key == Key::Char('/') {
        search_opened(old, new) && act == KeyAction::Nothing
    } else if key == Key::Char('?') {
        help_opened(old, new) && act == KeyAction::Nothing
    } else if key == Key::Char('r') {
        new == old && act == KeyAction::Refresh
    } else {
        new == old && act == KeyAction::Nothing
    }
}

/// A key on the Detail screen: `h`/`l` move between episodes, Enter plays
/// the selected one, `n` plays the one after it, `+` toggles the watchlist,
/// `/` searches and `?` shows help.
pub open spec fn detail_key(old: AppState, new: AppState, key: Key, act: KeyAction) -> bool {
    let cur = episode_cursor(old);
    if is_left(key) {
        new == episode_selected(old, episode_before(cur)) && act == KeyAction::Nothing
    } else if is_right(key) {
        new == episode_selected(old, episode_after(cur, old.episode_list@)) && act == KeyAction::Nothing
    } else if key == Key::Enter && old.selected_anime is Some {
        new == (AppState { screen: Screen::Playback, ..old }) && act == KeyAction::Play(cur)
    } else if key == Key::Char('n') && old.selected_anime is Some {
        let e = episode_after(cur, old.episode_list@);
        new == (AppState { screen: Screen::Playback, ..episode_selected(old, e) }) && act == KeyAction::Play(e)
    } else if key == Key::Char('+') && old.selected_anime is Some {
        let id = old.selected_anime->0.id;
        &&& new == (AppState { in_watchlist: !old.in_watchlist, ..old })
        &&& act == if old.in_watchlist { KeyAction::RemoveFromWatchlist(id) } else { KeyAction::AddToWatchlist(id) }
    } else if key == Key::Char('/') {
        search_opened(old, new) && act == KeyAction::Nothing
    } else if key == Key::Char('?') {
        help_opened(old, new) && act == KeyAction::Nothing
    } else {
        new == old && act == KeyAction::Nothing
    }
}

/// A key on the Playback screen: `n` stops the player and plays the next
/// episode.
pub open spec fn playback_key(old: AppState, new: AppState, key: Key, act: KeyAction) -> bool {
    if key == Key::Char('n') && old.selected_anime is Some {
        let e = episode_after(episode_cursor(old), old.episode_list@);
        new == episode_selected(player_stopped(old), e) && act == KeyAction::Play(e)
    } else {
        new == old && act == KeyAction::Nothing
    }
}

/// A key on the Search overlay: `j`/`k` move the result cursor, Enter opens
/// the result under it.
pub open spec fn search_key(old: AppState, new: AppState, key: Key, act: KeyAction) -> bool {
    let results = old.search_results@;
    let cur = old.search_cursor;
    if is_down(key) {
        new == (AppState {
            search_cursor: if cur + 1 < results.len() { (cur + 1) as usize } else { cur },
            ..old
        })
            && act == KeyAction::Nothing
    } else if is_up(key) {
        new == (AppState { search_cursor: scrolled_left(cur), ..old }) && act == KeyAction::Nothing
    } else if key == Key::Enter && cur < results.len() {
        detail_opened_like(old, new, results[cur as int]) && act == KeyAction::LoadDetail(results[cur as int].id)
    } else {
        new == old && act == KeyAction::Nothing
    }
}

/// What a key press of the main loop does. Ctrl+C quits; `q` goes back on
/// Detail, stops the player and goes back on Playback, and quits on every
/// other screen; Esc goes back, stopping the player first on Playback;
/// `?` closes the help overlay; the other keys act as the screen under them
/// says.
pub open spec fn key_handled(
    old: AppState,
    new: AppState,
    key: Key,
    control: bool,
    data: HomeData,
    act: KeyAction,
) -> bool {
    if key == Key::Char('c') && control {
        new == (AppState { should_quit: true, ..old }) && act == KeyAction::Nothing
    } else if key == Key::Char('q') {
        act == KeyAction::Nothing && match old.screen {
            Screen::Detail => went_back(old, new),
            Screen::Playback => went_back(player_stopped(old), new),
            _ => new == (AppState { should_quit: true, ..old }),
        }
    } else if key == Key::Esc {
        act == KeyAction::Nothing && if old.screen == Screen::Playback {
            went_back(player_stopped(old), new)
        } else {
            went_back(old, new)
        }
    } else {
        match old.screen {
            Screen::Home => home_key(old, new, key, data, act),
            Screen::Detail => detail_key(old, new, key, act),
            Screen::Playback => playback_key(old, new, key, act),
            Screen::Search => search_key(old, new, key, act),
            Screen::Help => if key == Key::Char('?') {
                went_back(old, new) && act == KeyAction::Nothing
            } else {
                new == old && act == KeyAction::Nothing
            },
            _ => new == old && act == KeyAction::Nothing,
        }
    }
}

/// What opening an overlay (`Search`, `Help`, `Settings` or `Setup`) does to
/// the screen fields.
pub open spec fn overlay_opened(old: AppState, new: AppState, overlay: Screen) -> bool {
    &&& new.screen == overlay
    &&& new.overlay_base == base_screen(old.screen, old.overlay_base)
}


fn key_is_down(key: Key) -> (r: bool)
    ensures
        r == is_down(key),
{
    key == Key::Char('j') || key == Key::Down
}

fn key_is_up(key: Key) -> (r: bool)
    ensures
        r == is_up(key),
{
    key == Key::Char('k') || key == Key::Up
}

fn key_is_left(key: Key) -> (r: bool)
    ensures
        r == is_left(key),
{
    key == Key::Char('h') || key == Key::Left
}

fn key_is_right(key: Key) -> (r: bool)
    ensures
        r == is_right(key),
{
    key == Key::Char('l') || key == Key::Right
}

/// Whether episode `e` is among the `recorded` episode numbers.
pub open spec fn recorded_episode(recorded: Seq<i64>, e: u32) -> bool {
    exists|k: int| 0 <= k < recorded.len() && recorded[k] == e as i64
}

/// The watched set of the detail screen from the episode numbers recorded
/// in the history, leaving out those that no episode pill can show
/// (negative or beyond `u32`).
pub fn watched_set(recorded: &Vec<i64>) -> (r: HashSet<u32>)
    ensures
        forall|e: u32| #[trigger] r@.contains(e) <==> recorded_episode(recorded@, e),
{
    let mut r: HashSet<u32> = HashSet::new();
    let mut i: usize = 0;
    while i < recorded.len()
        invariant
            i <= recorded@.len(),
            forall|e: u32| #[trigger] r@.contains(e) <==> recorded_episode(recorded@.take(i as int), e),
        decreases recorded.len() - i,
    {
        let ep = recorded[i];
        let ghost before = recorded@.take(i as int);
        let ghost after = recorded@.take(i + 1);
        assert(after =~= before.push(ep));
        if 0 <= ep && ep <= 0xffff_ffffi64 {
            let e = ep as u32;
            r.insert(e);
            assert forall|x: u32| #[trigger] r@.contains(x) <==> recorded_episode(after, x) by {
                if recorded_episode(before, x) {
                    let k = choose|k: int| 0 <= k < before.len() && before[k] == x as i64;
                    assert(after[k] == before[k]);
                }
                if x == e {
                    assert(after[i as int] == x as i64);
                }
                if recorded_episode(after, x) {
                    let k = choose|k: int| 0 <= k < after.len() && after[k] == x as i64;
                    if k < i {
                        assert(before[k] == after[k]);
                    }
                }
            }
        } else {
            assert forall|x: u32| #[trigger] r@.contains(x) <==> recorded_episode(after, x) by {
                if recorded_episode(before, x) {
                    let k = choose|k: int| 0 <= k < before.len() && before[k] == x as i64;
                    assert(after[k] == before[k]);
                }
                if recorded_episode(after, x) {
                    let k = choose|k: int| 0 <= k < after.len() && after[k] == x as i64;
                    if k < i {
                        assert(before[k] == after[k]);
                    }
                }
            }
        }
        i += 1;
    }
    assert(recorded@.take(recorded@.len() as int) =~= recorded@);
    r
}

/// Episodes 1 to `total` (just episode 1 when `total` is 0).
pub fn episode_range_vec(total: u32) -> (v: Vec<u32>)
    ensures
        v@ == episode_range(total),
{
    let n: u32 = if total < 1 { 1 } else { total };
    let mut v: Vec<u32> = Vec::new();
    let mut i: u32 = 0;
    while i < n
        invariant
            i <= n,
            n == (if total < 1 { 1 } else { total }),
            v@ == Seq::new(i as nat, |k: int| (k + 1) as u32),
        decreases n - i,
    {
        i += 1;
        v.push(i);
        assert(v@ =~= Seq::new(i as nat, |k: int| (k + 1) as u32));
    }
    assert(v@ =~= episode_range(total));
    v
}

/// Copies a list of anime, keeping their order and content.
pub fn clone_animes(v: &Vec<Anime>) -> (r: Vec<Anime>)
    ensures
        anime_views(r@) == anime_views(v@),
{
    let mut r: Vec<Anime> = Vec::new();
    let mut i: usize = 0;
    while i < v.len()
        invariant
            i <= v@.len(),
            r@.len() == i,
            forall|k: int| 0 <= k < i ==> (#[trigger] r@[k])@ == v@[k]@,
        decreases v.len() - i,
    {
        r.push(v[i].clone());
        i += 1;
    }
    assert(anime_views(r@) =~= anime_views(v@));
    r
}

impl AppState {
    pub fn new() -> (s: Self)
        ensures
            is_initial(s),
    {
        AppState {
            screen: Screen::Home,
            overlay_base: Screen::Home,
            active_row: CategoryRow::Trending,
            row_offsets: RowOffsets::new(),
            selected_anime: None,
            episode_list: Vec::new(),
            selected_episode: None,
            episode_offset: 0,
            search_query: String::new(),
            search_results: Vec::new(),
            search_cursor: 0,
            settings_cursor: 0,
            playback_queries: Vec::new(),
            playback_query_cursor: 0,
            playback_quality_cursor: 0,
            pending_playback_query: None,
            pending_dub: false,
            player_stop: None,
            now_playing: None,
            playback_logs: Vec::new(),
            in_watchlist: false,
            cover_ready: false,
            cover_anime_id: None,
            cover_failed_anime_id: None,
            image_protocol: None,
            banner_progress: None,
            detail_recommendations: Vec::new(),
            detail_recommendation_reasons: HashMap::new(),
            detail_focus: DetailFocus::Episodes,
            detail_related_cursor: 0,
            detail_related_offset: 0,
            detail_origin_title: None,
            detail_history: Vec::new(),
            has_ani_cli: true,
            has_mpv: true,
            has_iina: false,
            has_vlc: true,
            toast: None,
            is_loading: true,
            should_quit: false,
            watched_episodes: HashSet::new(),
            last_played: None,
            last_played_anime_id: None,
        }
    }

    /// Shows a toast notification that expires 4 seconds after `now`.
    pub fn show_toast(&mut self, msg: String, now: i64)
        requires
            now <= i64::MAX - 4,
        ensures
            *final(self) == (AppState { toast: Some((msg, (now + 4) as i64)), ..*old(self) }),
    {
        self.toast = Some((msg, now + 4));
    }

    /// Clears an expired toast, then returns the message of the toast that
    /// is still showing, if any.
    pub fn active_toast(&mut self, now: i64) -> (r: Option<&str>)
        ensures
            *final(self) == (AppState {
                toast: if toast_live(old(self).toast, now) { old(self).toast } else { None },
                ..*old(self)
            }),
            r is Some <==> toast_live(old(self).toast, now),
            r is Some ==> r->0@ == toast_message(old(self).toast),
    {
        let expired = match &self.toast {
            Some((_, expiry)) => now >= *expiry,
            None => true,
        };
        if expired {
            self.toast = None;
        }
        match &self.toast {
            Some((msg, _)) => Some(msg.as_str()),
            None => None,
        }
    }

    /// True when the terminal shows real images (any protocol but halfblocks).
    pub fn has_image_support(&self) -> (r: bool)
        ensures
            r == (self.image_protocol is Some && self.image_protocol->0 != ImageProtocol::Halfblocks),
    {
        match self.image_protocol {
            Some(p) => p != ImageProtocol::Halfblocks,
            None => false,
        }
    }

    /// Stops any running player: signals its task and clears the
    /// now-playing label.
    pub fn stop_player(&mut self)
        ensures
            *final(self) == (AppState { player_stop: None, now_playing: None, ..*old(self) }),
    {
        if let Some(stop_tx) = self.player_stop.take() {
            send_stop(stop_tx);
        }
        self.now_playing = None;
    }

    /// Navigates back: playback screens to Detail, Detail to the previous
    /// detail screen or Home, overlays to their base screen, Home to quit.
    pub fn go_back(&mut self)
        ensures
            went_back(*old(self), *final(self)),
    {
        match self.screen {
            Screen::Playback | Screen::PlaybackQuery | Screen::PlaybackOptions => {
                self.screen = Screen::Detail;
            },
            Screen::Detail => {
                if self.restore_previous_detail() {
                    self.screen = Screen::Detail;
                } else {
                    self.screen = Screen::Home;
                }
            },
            Screen::Search | Screen::Help | Screen::Settings | Screen::Setup => {
                self.screen = self.overlay_base;
            },
            Screen::Home => {
                self.should_quit = true;
                self.screen = Screen::Home;
            },
        }
    }

    /// Opens the detail screen of `anime` at episode 1, keeping the cover
    /// image only when it already belongs to this anime.
    pub fn open_detail(&mut self, anime: Anime)
        ensures
            detail_opened(*old(self), *final(self), anime),
    {
        let total: u32 = match anime.episodes {
            Some(n) => n as u32,
            None => 0,
        };
        let reuse_cover = self.cover_anime_id == Some(anime.id) && self.cover_ready;
        self.episode_list = episode_range_vec(total);
        self.selected_episode = Some(1);
        self.episode_offset = 0;
        self.cover_anime_id = Some(anime.id);
        if !reuse_cover {
            self.cover_ready = false;
        }
        self.watched_episodes = HashSet::new();
        self.detail_recommendations = Vec::new();
        self.detail_recommendation_reasons = HashMap::new();
        self.detail_focus = DetailFocus::Episodes;
        self.detail_related_cursor = 0;
        self.detail_related_offset = 0;
        self.detail_origin_title = None;
        self.selected_anime = Some(anime);
        self.screen = Screen::Detail;
    }

    /// Opens the search overlay with an empty query.
    pub fn open_search(&mut self)
        ensures
            search_opened(*old(self), *final(self)),
    {
        self.search_query = String::new();
        self.search_results = Vec::new();
        self.search_cursor = 0;
        self.overlay_base = self.current_base_screen();
        self.screen = Screen::Search;
    }

    /// Opens the help overlay.
    pub fn open_help(&mut self)
        ensures
            help_opened(*old(self), *final(self)),
    {
        self.overlay_base = self.current_base_screen();
        self.screen = Screen::Help;
    }

    /// Opens the settings overlay on its first row.
    pub fn open_settings(&mut self)
        ensures
            overlay_opened(*old(self), *final(self), Screen::Settings),
            *final(self) == (AppState {
                overlay_base: final(self).overlay_base,
                settings_cursor: 0,
                screen: Screen::Settings,
                ..*old(self)
            }),
    {
        self.overlay_base = self.current_base_screen();
        self.settings_cursor = 0;
        self.screen = Screen::Settings;
    }

    /// Opens the dependency / setup overlay.
    pub fn open_setup(&mut self)
        ensures
            overlay_opened(*old(self), *final(self), Screen::Setup),
            *final(self) == (AppState {
                overlay_base: final(self).overlay_base,
                screen: Screen::Setup,
                ..*old(self)
            }),
    {
        self.overlay_base = self.current_base_screen();
        self.screen = Screen::Setup;
    }

    /// Opens the playback query picker for `anime`.
    pub fn open_playback_query_picker(&mut self, anime: &Anime)
        ensures
            *final(self) == (AppState {
                playback_queries: final(self).playback_queries,
                playback_query_cursor: 0,
                pending_playback_query: None,
                screen: Screen::PlaybackQuery,
                ..*old(self)
            }),
            final(self).playback_queries.deep_view() == playback_queries_of(anime@),
    {
        self.playback_queries = anime.playback_queries();
        self.playback_query_cursor = 0;
        self.pending_playback_query = None;
        self.screen = Screen::PlaybackQuery;
    }

    /// Opens the playback options overlay once a query has been chosen.
    pub fn open_playback_options(&mut self, query: String, quality_idx: usize, dub: bool)
        ensures
            *final(self) == (AppState {
                pending_playback_query: Some(query),
                playback_quality_cursor: quality_idx,
                pending_dub: dub,
                screen: Screen::PlaybackOptions,
                ..*old(self)
            }),
    {
        self.pending_playback_query = Some(query);
        self.playback_quality_cursor = quality_idx;
        self.pending_dub = dub;
        self.screen = Screen::PlaybackOptions;
    }

    /// Replaces the watched set and selects the next unwatched episode,
    /// scrolling the pills to the row of ten that shows it.
    pub fn set_watched_episodes(&mut self, watched: HashSet<u32>)
        ensures
            *final(self) == (AppState {
                watched_episodes: watched,
                selected_episode: Some(next_unwatched(old(self).episode_list@, watched@)),
                episode_offset: pill_page_start(next_unwatched(old(self).episode_list@, watched@)),
                ..*old(self)
            }),
    {
        self.watched_episodes = watched;
        let next = self.next_unwatched_episode();
        self.selected_episode = Some(next);
        let pills_per_row: usize = 10;
        let prev: u32 = if next >= 1 { next - 1 } else { 0 };
        self.episode_offset = (prev as usize) / pills_per_row * pills_per_row;
    }

    /// The next episode to watch: the first unwatched one, else the last
    /// one, else 1.
    pub fn next_unwatched_episode(&self) -> (r: u32)
        ensures
            r == next_unwatched(self.episode_list@, self.watched_episodes@),
    {
        let ghost list = self.episode_list@;
        let ghost w = self.watched_episodes@;
        let mut i: usize = 0;
        assert(list.subrange(0, list.len() as int) =~= list);
        while i < self.episode_list.len()
            invariant
                i <= list.len(),
                list == self.episode_list@,
                w == self.watched_episodes@,
                first_unwatched(list, w) == first_unwatched(list.subrange(i as int, list.len() as int), w),
            decreases self.episode_list.len() - i,
        {
            let ep = self.episode_list[i];
            let ghost rest = list.subrange(i as int, list.len() as int);
            assert(rest[0] == ep);
            if !self.watched_episodes.contains(&ep) {
                return ep;
            }
            assert(rest.drop_first() =~= list.subrange(i + 1, list.len() as int));
            i += 1;
        }
        assert(list.subrange(i as int, list.len() as int).len() == 0);
        let n = self.episode_list.len();
        if n > 0 {
            self.episode_list[n - 1]
        } else {
            1
        }
    }

    /// Appends a playback log line, dropping the oldest once 200 are kept.
    pub fn push_log(&mut self, line: String)
        ensures
            *final(self) == (AppState { playback_logs: final(self).playback_logs, ..*old(self) }),
            final(self).playback_logs@ == log_after_push(old(self).playback_logs@, line),
    {
        if self.playback_logs.len() >= 200 {
            self.playback_logs.remove(0);
        }
        self.playback_logs.push(line);
        proof {
            assert(final(self).playback_logs@ =~= log_after_push(old(self).playback_logs@, line));
        }
    }

    /// The card offset of a named row, 0 by default.
    pub fn row_offset(&self, row: &str) -> (r: usize)
        ensures
            r == offset_of(self.row_offsets@, row@),
    {
        self.row_offsets.get(row)
    }

    /// Scrolls a row right by one card, clamped to `max_cards - 1`.
    pub fn scroll_row_right(&mut self, row: &str, max_cards: usize)
        requires
            old(self).row_offsets@.contains_key(row@) ==> old(self).row_offsets@[row@] < usize::MAX,
        ensures
            *final(self) == (AppState { row_offsets: final(self).row_offsets, ..*old(self) }),
            final(self).row_offsets@ == old(self).row_offsets@.insert(
                row@,
                scrolled_right(offset_of(old(self).row_offsets@, row@), max_cards),
            ),
    {
        let cur = self.row_offsets.get(row);
        let next = if cur + 1 < max_cards { cur + 1 } else { cur };
        self.row_offsets.set(row, next);
    }

    /// Scrolls a row left by one card, never below 0.
    pub fn scroll_row_left(&mut self, row: &str)
        ensures
            *final(self) == (AppState { row_offsets: final(self).row_offsets, ..*old(self) }),
            final(self).row_offsets@ == old(self).row_offsets@.insert(
                row@,
                scrolled_left(offset_of(old(self).row_offsets@, row@)),
            ),
    {
        let cur = self.row_offsets.get(row);
        let next = if cur > 0 { cur - 1 } else { 0 };
        self.row_offsets.set(row, next);
    }

    /// The base screen that stays visible under overlays.
    pub fn current_base_screen(&self) -> (r: Screen)
        ensures
            r == base_screen(self.screen, self.overlay_base),
    {
        match self.screen {
            Screen::Detail | Screen::Playback | Screen::PlaybackQuery | Screen::PlaybackOptions => {
                Screen::Detail
            },
            Screen::Search | Screen::Help | Screen::Settings | Screen::Setup => self.overlay_base,
            Screen::Home => Screen::Home,
        }
    }

    /// Records which external tools are installed.
    pub fn set_dependencies(&mut self, ani_cli: bool, mpv: bool, iina: bool, vlc: bool)
        ensures
            *final(self) == (AppState {
                has_ani_cli: ani_cli,
                has_mpv: mpv,
                has_iina: iina,
                has_vlc: vlc,
                ..*old(self)
            }),
    {
        self.has_ani_cli = ani_cli;
        self.has_mpv = mpv;
        self.has_iina = iina;
        self.has_vlc = vlc;
    }

    /// True when some player is installed.
    pub fn has_any_player(&self) -> (r: bool)
        ensures
            r == (self.has_mpv || self.has_iina || self.has_vlc),
    {
        self.has_mpv || self.has_iina || self.has_vlc
    }

    /// Saves the current detail screen so that Back can return to it.
    pub fn push_detail_snapshot(&mut self)
        ensures
            old(self).selected_anime is None ==> *final(self) == *old(self),
            old(self).selected_anime is Some ==> {
                &&& *final(self) == (AppState { detail_history: final(self).detail_history, ..*old(self) })
                &&& final(self).detail_history@.drop_last() == old(self).detail_history@
                &&& final(self).detail_history@.len() == old(self).detail_history@.len() + 1
                &&& snapshot_of(final(self).detail_history@.last(), *old(self))
            },
    {
        let anime = match &self.selected_anime {
            Some(a) => a.clone(),
            None => {
                return;
            },
        };
        let snap = DetailSnapshot {
            anime,
            in_watchlist: self.in_watchlist,
            watched_episodes: clone_episode_set(&self.watched_episodes),
            detail_recommendations: clone_animes(&self.detail_recommendations),
            detail_recommendation_reasons: self.detail_recommendation_reasons.clone(),
            detail_focus: self.detail_focus,
            detail_related_cursor: self.detail_related_cursor,
            detail_related_offset: self.detail_related_offset,
            detail_origin_title: clone_opt_string(&self.detail_origin_title),
            last_played: clone_opt_string(&self.last_played),
            last_played_anime_id: self.last_played_anime_id,
        };
        self.detail_history.push(snap);
        proof {
            assert(final(self).detail_history@.drop_last() =~= old(self).detail_history@);
        }
    }

    fn restore_previous_detail(&mut self) -> (r: bool)
        ensures
            r == (old(self).detail_history@.len() > 0),
            r ==> {
                &&& final(self).detail_history@ == old(self).detail_history@.drop_last()
                &&& restored_detail(old(self).detail_history@.last(), *final(self))
                &&& only_detail_changed(*old(self), *final(self))
                &&& final(self).screen == old(self).screen
            },
            !r ==> *final(self) == *old(self),
    {
        if self.detail_history.len() == 0 {
            return false;
        }
        let snapshot = self.detail_history.pop().unwrap();
        let total: u32 = match snapshot.anime.episodes {
            Some(n) => n as u32,
            None => 0,
        };
        self.episode_list = episode_range_vec(total);
        self.selected_anime = Some(snapshot.anime);
        self.in_watchlist = snapshot.in_watchlist;
        self.detail_recommendations = snapshot.detail_recommendations;
        self.detail_recommendation_reasons = snapshot.detail_recommendation_reasons;
        self.detail_focus = snapshot.detail_focus;
        self.detail_related_cursor = snapshot.detail_related_cursor;
        self.detail_related_offset = snapshot.detail_related_offset;
        self.detail_origin_title = snapshot.detail_origin_title;
        self.last_played = snapshot.last_played;
        self.last_played_anime_id = snapshot.last_played_anime_id;
        self.set_watched_episodes(snapshot.watched_episodes);
        true
    }

    /// Selects episode `e` and scrolls the pills to the row of ten that
    /// shows it.
    fn select_episode(&mut self, e: u32)
        ensures
            *final(self) == episode_selected(*old(self), e),
    {
        self.selected_episode = Some(e);
        let pills_per_row: usize = 10;
        let prev: u32 = if e >= 1 { e - 1 } else { 0 };
        self.episode_offset = (prev as usize) / pills_per_row * pills_per_row;
    }

    /// The episode under the cursor (1 when none is).
    fn current_episode(&self) -> (r: u32)
        ensures
            r == episode_cursor(*self),
    {
        match self.selected_episode {
            Some(e) => e,
            None => 1,
        }
    }

    /// The episode after the one under the cursor, stopping at the last.
    fn following_episode(&self) -> (r: u32)
        ensures
            r == episode_after(episode_cursor(*self), self.episode_list@),
    {
        let cur = self.current_episode();
        let n = self.episode_list.len();
        let last: u32 = if n > 0 { self.episode_list[n - 1] } else { 1 };
        if cur < last { cur + 1 } else { cur }
    }

    #[verifier::rlimit(40)]
    fn home_key_pressed(&mut self, key: Key, data: &HomeData) -> (act: KeyAction)
        requires
            old(self).screen == Screen::Home,
        ensures
            home_key(*old(self), *final(self), key, *data, act),
    {
        let row = self.active_row;
        if key_is_down(key) || key_is_up(key) {
            let rows = data.visible_rows();
            self.active_row = moved_row(&rows, row, key_is_down(key));
            KeyAction::Nothing
        } else if key_is_left(key) {
            self.scroll_row_left(row_key(row));
            KeyAction::Nothing
        } else if key_is_right(key) {
            let k = row_key(row);
            let cur = self.row_offset(k);
            if cur < usize::MAX {
                self.scroll_row_right(k, data.row(row).len());
            } else {
                proof {
                    assert(self.row_offsets@.insert(k@, cur) =~= self.row_offsets@);
                }
            }
            KeyAction::Nothing
        } else if key == Key::Enter {
            match active_banner_anime(self, data) {
                Some(a) => {
                    let id = a.id;
                    let chosen = a.clone();
                    self.open_detail(chosen);
                    KeyAction::LoadDetail(id)
                },
                None => KeyAction::Nothing,
            }
        } else if key == Key::Char('/') {
            self.open_search();
            KeyAction::Nothing
        } else if key == Key::Char('?') {
            self.open_help();
            KeyAction::Nothing
        } else if key == Key::Char('r') {
            KeyAction::Refresh
        } else {
            KeyAction::Nothing
        }
    }

    fn detail_key_pressed(&mut self, key: Key) -> (act: KeyAction)
        requires
            old(self).screen == Screen::Detail,
        ensures
            detail_key(*old(self), *final(self), key, act),
    {
        let cur = self.current_episode();
        let has_anime = self.selected_anime.is_some();
        if key_is_left(key) {
            let e = if cur > 1 { cur - 1 } else { cur };
            self.select_episode(e);
            KeyAction::Nothing
        } else if key_is_right(key) {
            let e = self.following_episode();
            self.select_episode(e);
            KeyAction::Nothing
        } else if key == Key::Enter && has_anime {
            self.screen = Screen::Playback;
            KeyAction::Play(cur)
        } else if key == Key::Char('n') && has_anime {
            let e = self.following_episode();
            self.select_episode(e);
            self.screen = Screen::Playback;
            KeyAction::Play(e)
        } else if key == Key::Char('+') && has_anime {
            let id = match &self.selected_anime {
                Some(a) => a.id,
                None => 0,
            };
            let was_in = self.in_watchlist;
            self.in_watchlist = !was_in;
            if was_in {
                KeyAction::RemoveFromWatchlist(id)
            } else {
                KeyAction::AddToWatchlist(id)
            }
        } else if key == Key::Char('/') {
            self.open_search();
            KeyAction::Nothing
        } else if key == Key::Char('?') {
            self.open_help();
            KeyAction::Nothing
        } else {
            KeyAction::Nothing
        }
    }

    fn playback_key_pressed(&mut self, key: Key) -> (act: KeyAction)
        requires
            old(self).screen == Screen::Playback,
        ensures
            playback_key(*old(self), *final(self), key, act),
    {
        if key == Key::Char('n') && self.selected_anime.is_some() {
            let e = self.following_episode();
            self.stop_player();
            self.select_episode(e);
            KeyAction::Play(e)
        } else {
            KeyAction::Nothing
        }
    }

    fn search_key_pressed(&mut self, key: Key) -> (act: KeyAction)
        requires
            old(self).screen == Screen::Search,
        ensures
            search_key(*old(self), *final(self), key, act),
    {
        let cur = self.search_cursor;
        let len = self.search_results.len();
        if key_is_down(key) {
            let next = if cur < len && cur + 1 < len { cur + 1 } else { cur };
            self.search_cursor = next;
            KeyAction::Nothing
        } else if key_is_up(key) {
            let next = if cur > 0 { cur - 1 } else { 0 };
            self.search_cursor = next;
            KeyAction::Nothing
        } else if key == Key::Enter && cur < len {
            let id = self.search_results[cur].id;
            let chosen = self.search_results[cur].clone();
            self.open_detail(chosen);
            KeyAction::LoadDetail(id)
        } else {
            KeyAction::Nothing
        }
    }

    /// Applies a key press of the main loop and says what outside work it
    /// asks for. Ctrl+C quits; `q` goes back on Detail, stops the player and
    /// goes back on Playback, and quits elsewhere; Esc goes back, stopping
    /// the player first on Playback. On Home `j`/`k` move between rows,
    /// `h`/`l` scroll the active row, Enter opens the featured card, `/`
    /// searches, `?` shows help and `r` refreshes. On Detail `h`/`l` pick the
    /// episode, Enter plays it, `n` plays the next one, `+` toggles the
    /// watchlist, `/` and `?` as on Home. On Playback `n` plays the next
    /// episode. On Search `j`/`k` move the cursor and Enter opens the result.
    /// `?` closes the help overlay.
    pub fn handle_key(&mut self, key: Key, control: bool, data: &HomeData) -> (act: KeyAction)
        ensures
            key_handled(*old(self), *final(self), key, control, *data, act),
    {
        match key {
            Key::Char('c') if control => {
                self.should_quit = true;
                KeyAction::Nothing
            },
            Key::Char('q') => {
                match self.screen {
                    Screen::Detail => self.go_back(),
                    Screen::Playback => {
                        self.stop_player();
                        self.go_back();
                    },
                    _ => {
                        self.should_quit = true;
                    },
                }
                KeyAction::Nothing
            },
            Key::Esc => {
                if self.screen == Screen::Playback {
                    self.stop_player();
                }
                self.go_back();
                KeyAction::Nothing
            },
            _ => {
                match self.screen {
                    Screen::Home => self.home_key_pressed(key, data),
                    Screen::Detail => self.detail_key_pressed(key),
                    Screen::Playback => self.playback_key_pressed(key),
                    Screen::Search => self.search_key_pressed(key),
                    Screen::Help => {
                        if key == Key::Char('?') {
                            self.go_back();
                        }
                        KeyAction::Nothing
                    },
                    _ => KeyAction::Nothing,
                }
            },
        }
    }
}

impl Default for AppState {
    fn default() -> (s: Self)
        ensures
            is_initial(s),
    {
        Self::new()
    }
}


/// The detail-screen fields of `a` and `b` hold the same content.
pub open spec fn same_detail(a: AppState, b: AppState) -> bool {
    &&& a.selected_anime is Some
    &&& b.selected_anime is Some
    &&& a.selected_anime->0@ == b.selected_anime->0@
    &&& a.in_watchlist == b.in_watchlist
    &&& a.watched_episodes@ == b.watched_episodes@
    &&& anime_views(a.detail_recommendations@) == anime_views(b.detail_recommendations@)
    &&& a.detail_recommendation_reasons@ == b.detail_recommendation_reasons@
    &&& a.detail_focus == b.detail_focus
    &&& a.detail_related_cursor == b.detail_related_cursor
    &&& a.detail_related_offset == b.detail_related_offset
    &&& opt_text(a.detail_origin_title) == opt_text(b.detail_origin_title)
    &&& opt_text(a.last_played) == opt_text(b.last_played)
    &&& a.last_played_anime_id == b.last_played_anime_id
}

/// Closing an overlay returns to the screen it was opened over: opening
/// Search, Help, Settings or Setup from `s0` and then going back shows the
/// base screen of `s0` (Detail for the detail and playback screens, Home
/// for Home, and the underlying base when an overlay was already open).
pub proof fn law_back_closes_overlay(s0: AppState, s1: AppState, s2: AppState, overlay: Screen)
    requires
        overlay == Screen::Search || overlay == Screen::Help || overlay == Screen::Settings
            || overlay == Screen::Setup,
        overlay_opened(s0, s1, overlay),
        went_back(s1, s2),
    ensures
        s2.screen == base_screen(s0.screen, s0.overlay_base),
        !s2.should_quit || s1.should_quit,
{
}

/// Back restores the previous detail screen: after saving the detail
/// screen of `s0`, whatever detail screen is shown next (with the saved
/// history left alone), Back shows the saved anime again with its
/// watchlist flag, watched episodes, recommendations, focus and playback
/// label, and the history is as it was in `s0`.
pub proof fn law_back_restores_detail(s0: AppState, s1: AppState, s2: AppState, s3: AppState)
    requires
        s0.selected_anime is Some,
        s1 == (AppState { detail_history: s1.detail_history, ..s0 }),
        s1.detail_history@.drop_last() == s0.detail_history@,
        s1.detail_history@.len() == s0.detail_history@.len() + 1,
        snapshot_of(s1.detail_history@.last(), s0),
        s2.detail_history@ == s1.detail_history@,
        s2.screen == Screen::Detail,
        went_back(s2, s3),
    ensures
        s3.screen == Screen::Detail,
        s3.detail_history@ == s0.detail_history@,
        same_detail(s0, s3),
{
}

/// The playback log never grows past 200 lines, ends with the line just
/// pushed, and keeps the most recent lines in order.
pub proof fn law_log_bounded(logs: Seq<String>, line: String)
    requires
        logs.len() <= 200,
    ensures
        log_after_push(logs, line).len() <= 200,
        log_after_push(logs, line).last() == line,
        ({
            let all = logs.push(line);
            let kept = log_after_push(logs, line);
            forall|i: int| 0 <= i < kept.len() ==> #[trigger] kept[i] == all[i + (all.len() - kept.len())]
        }),
{
}

/// Row scrolling stays within the row: from a valid card, scrolling right
/// never passes the last card, scrolling left never goes below the first,
/// and a right step that moved is undone by a left step.
pub proof fn law_scroll_within_row(cur: usize, max_cards: usize)
    requires
        cur < max_cards,
    ensures
        scrolled_right(cur, max_cards) < max_cards,
        scrolled_left(cur) <= cur,
        cur + 1 < max_cards ==> scrolled_left(scrolled_right(cur, max_cards)) == cur,
{
}

/// The next episode to watch is the first unwatched one of the list: it is
/// not watched and every earlier episode is. When every episode is
/// watched, the last one is chosen.
pub proof fn law_next_unwatched(list: Seq<u32>, watched: Set<u32>)
    ensures
        first_unwatched(list, watched) is Some ==> {
            let e = first_unwatched(list, watched)->0;
            exists|i: int|
                #![trigger list[i]]
                0 <= i < list.len() && list[i] == e && !watched.contains(e)
                    && forall|j: int| 0 <= j < i ==> watched.contains(#[trigger] list[j])
        },
        first_unwatched(list, watched) is None ==> forall|i: int|
            0 <= i < list.len() ==> watched.contains(#[trigger] list[i]),
        first_unwatched(list, watched) is None && list.len() > 0 ==> next_unwatched(list, watched)
            == list.last(),
    decreases list.len(),
{
    if list.len() > 0 {
        let rest = list.drop_first();
        law_next_unwatched(rest, watched);
        if watched.contains(list[0]) {
            if first_unwatched(list, watched) is Some {
                let e = first_unwatched(list, watched)->0;
                let i = choose|i: int|
                    #![trigger rest[i]]
                    0 <= i < rest.len() && rest[i] == e && !watched.contains(e)
                        && forall|j: int| 0 <= j < i ==> watched.contains(#[trigger] rest[j]);
                assert(list[i + 1] == e);
                assert forall|j: int| 0 <= j < i + 1 implies watched.contains(#[trigger] list[j]) by {
                    if j > 0 {
                        assert(list[j] == rest[j - 1]);
                    }
                }
            } else {
                assert forall|i: int| 0 <= i < list.len() implies watched.contains(#[trigger] list[i]) by {
                    if i > 0 {
                        assert(list[i] == rest[i - 1]);
                    }
                }
            }
        } else {
            assert(list[0] == first_unwatched(list, watched)->0);
        }
    }
}

/// The episode pills scroll by whole rows of ten, and the row shown holds
/// the selected episode.
pub proof fn law_pill_page(episode: u32)
    requires
        episode >= 1,
    ensures
        pill_page_start(episode) % 10 == 0,
        pill_page_start(episode) <= episode - 1 < pill_page_start(episode) + 10,
{
}

/// A toast shown at `now` stays visible for 4 seconds and no longer.
pub proof fn law_toast_lifetime(msg: String, now: i64, t: i64)
    requires
        now <= i64::MAX - 4,
    ensures
        toast_live(Some((msg, (now + 4) as i64)), t) <==> t < now + 4,
{
}

/// The episode list of a detail screen numbers the episodes 1, 2, ... in
/// order, with at least one episode.
pub proof fn law_episode_range(total: u32)
    ensures
        episode_range(total).len() == (if total < 1 { 1 } else { total as nat }),
        forall|i: int| 0 <= i < episode_range(total).len() ==> #[trigger] episode_range(total)[i] == i + 1,
{
}

/// The screen kept under overlays is a full screen, never an overlay.
pub open spec fn base_is_full_screen(s: AppState) -> bool {
    s.overlay_base == Screen::Home || s.overlay_base == Screen::Detail
}

/// Overlays never stack: the application starts with Home under its
/// overlays, opening an overlay and going back keep a full screen there,
/// and so Back from an overlay always lands on Home or Detail.
pub proof fn law_overlays_never_stack(s0: AppState, s1: AppState, overlay: Screen)
    ensures
        is_initial(s0) ==> base_is_full_screen(s0),
        base_is_full_screen(s0) && overlay_opened(s0, s1, overlay) ==> base_is_full_screen(s1),
        base_is_full_screen(s0) && went_back(s0, s1) ==> base_is_full_screen(s1),
        base_is_full_screen(s0) && went_back(s0, s1)
            && (s0.screen == Screen::Search || s0.screen == Screen::Help
                || s0.screen == Screen::Settings || s0.screen == Screen::Setup)
            ==> (s1.screen == Screen::Home || s1.screen == Screen::Detail),
{
}

/// `?` toggles the help overlay: pressed twice on Home or Detail, it comes
/// back to the same screen with nothing changed but the overlay's base
/// screen, and asks for no outside work.
pub proof fn law_help_toggles(
    s0: AppState,
    s1: AppState,
    s2: AppState,
    data: HomeData,
    a1: KeyAction,
    a2: KeyAction,
)
    requires
        s0.screen == Screen::Home || s0.screen == Screen::Detail,
        key_handled(s0, s1, Key::Char('?'), false, data, a1),
        key_handled(s1, s2, Key::Char('?'), false, data, a2),
    ensures
        s1.screen == Screen::Help,
        s2 == (AppState { overlay_base: s0.screen, ..s0 }),
        a1 == KeyAction::Nothing,
        a2 == KeyAction::Nothing,
{
}

/// On the Search overlay `k` (or the up arrow) moves the result cursor up
/// one result, stopping at the first, and `j` (or the down arrow) moves it
/// down one result, stopping at the last; the results stay as they were and
/// no outside work is asked for.
pub proof fn law_search_cursor_steps(old: AppState, new: AppState, key: Key, data: HomeData, act: KeyAction)
    requires
        old.screen == Screen::Search,
        is_up(key) || is_down(key),
        key_handled(old, new, key, false, data, act),
    ensures
        new.screen == Screen::Search,
        new.search_results == old.search_results,
        act == KeyAction::Nothing,
        is_up(key) && old.search_cursor > 0 ==> new.search_cursor + 1 == old.search_cursor,
        is_up(key) && old.search_cursor == 0 ==> new.search_cursor == 0,
        is_down(key) && old.search_cursor + 1 < old.search_results@.len() <= usize::MAX
            ==> new.search_cursor == old.search_cursor + 1,
        is_down(key) && old.search_cursor + 1 >= old.search_results@.len()
            ==> new.search_cursor == old.search_cursor,
{
}

/// On the Search overlay, `j` followed by `k` comes back to the result the
/// cursor started on, unless it started on the last result.
pub proof fn law_search_down_then_up(
    s0: AppState,
    s1: AppState,
    s2: AppState,
    data: HomeData,
    a1: KeyAction,
    a2: KeyAction,
)
    requires
        s0.screen == Screen::Search,
        s0.search_cursor + 1 < s0.search_results@.len(),
        s0.search_results@.len() <= usize::MAX,
        key_handled(s0, s1, Key::Char('j'), false, data, a1),
        key_handled(s1, s2, Key::Char('k'), false, data, a2),
    ensures
        s2 == s0,
{
    law_search_cursor_steps(s0, s1, Key::Char('j'), data, a1);
    law_search_cursor_steps(s1, s2, Key::Char('k'), data, a2);
}

} // verus!

use ani_tui::anime::Anime;
use ani_tui::home::HomeData;
use ani_tui::state::{watched_set, AppState, CategoryRow, DetailFocus, ImageProtocol, Key, KeyAction, Screen};
use std::collections::{HashMap, HashSet};

fn dummy_anime(id: i64) -> Anime {
    Anime {
        id,
        title_english: Some("Test".into()),
        title_romaji: "Test".into(),
        title_native: None,
        description: None,
        episodes: Some(12),
        status: None,
        season: None,
        season_year: None,
        score: Some(80),
        format: None,
        genres: "[]".into(),
        cover_url: None,
        cover_blob: None,
        has_dub: 0,
        updated_at: 0,
    }
}

#[test]
fn test_initial_screen_is_home() {
    let state = AppState::new();
    assert_eq!(state.screen, Screen::Home);
}

#[test]
fn test_go_back_from_detail_goes_home() {
    let mut state = AppState::new();
    state.screen = Screen::Detail;
    state.go_back();
    assert_eq!(state.screen, Screen::Home);
}

#[test]
fn test_go_back_from_playback_goes_detail() {
    let mut state = AppState::new();
    state.screen = Screen::Playback;
    state.go_back();
    assert_eq!(state.screen, Screen::Detail);
}

#[test]
fn test_go_back_from_home_sets_quit() {
    let mut state = AppState::new();
    state.go_back();
    assert!(state.should_quit);
}

#[test]
fn test_go_back_from_search_goes_home() {
    let mut state = AppState::new();
    state.screen = Screen::Search;
    state.go_back();
    assert_eq!(state.screen, Screen::Home);
}

#[test]
fn test_open_detail_sets_screen_and_anime() {
    let mut state = AppState::new();
    state.open_detail(dummy_anime(42));
    assert_eq!(state.screen, Screen::Detail);
    assert_eq!(state.selected_anime.as_ref().unwrap().id, 42);
    assert_eq!(state.selected_episode, Some(1));
}

#[test]
fn test_set_watched_episodes_selects_next_unwatched() {
    let mut state = AppState::new();
    state.open_detail(dummy_anime(42));
    state.set_watched_episodes([1, 2, 4].into_iter().collect());
    assert_eq!(state.selected_episode, Some(3));
}

#[test]
fn test_next_unwatched_falls_back_to_last_episode_when_complete() {
    let mut state = AppState::new();
    state.open_detail(dummy_anime(42));
    state.set_watched_episodes((1..=12).collect());
    assert_eq!(state.selected_episode, Some(12));
}

#[test]
fn test_open_search_clears_previous_state() {
    let mut state = AppState::new();
    state.search_query = "naruto".to_string();
    state.search_cursor = 5;
    state.open_search();
    assert_eq!(state.search_query, "");
    assert_eq!(state.search_cursor, 0);
    assert_eq!(state.screen, Screen::Search);
}

#[test]
fn test_push_log_caps_at_200() {
    let mut state = AppState::new();
    for i in 0..250 {
        state.push_log(format!("line {}", i));
    }
    assert_eq!(state.playback_logs.len(), 200);
    assert_eq!(state.playback_logs.last().unwrap(), "line 249");
}

#[test]
fn test_row_offset_defaults_to_zero() {
    let state = AppState::new();
    assert_eq!(state.row_offset("trending"), 0);
}

#[test]
fn test_scroll_row_right() {
    let mut state = AppState::new();
    state.scroll_row_right("trending", 10);
    assert_eq!(state.row_offset("trending"), 1);
}

#[test]
fn test_scroll_row_right_clamps_at_max() {
    let mut state = AppState::new();
    state.scroll_row_right("trending", 2);
    state.scroll_row_right("trending", 2);
    state.scroll_row_right("trending", 2);
    assert_eq!(state.row_offset("trending"), 1);
}

#[test]
fn test_scroll_row_left_does_not_underflow() {
    let mut state = AppState::new();
    state.scroll_row_left("trending");
    assert_eq!(state.row_offset("trending"), 0);
}

#[test]
fn initial_state_flags() {
    let state = AppState::default();
    assert_eq!(state.overlay_base, Screen::Home);
    assert_eq!(state.active_row, CategoryRow::Trending);
    assert!(state.is_loading);
    assert!(!state.should_quit);
    assert!(state.has_ani_cli && state.has_mpv && !state.has_iina && state.has_vlc);
    assert!(state.episode_list.is_empty());
    assert!(state.detail_history.is_empty());
}

#[test]
fn overlays_return_to_their_base_screen() {
    let mut state = AppState::new();
    state.open_detail(dummy_anime(1));
    state.open_help();
    assert_eq!(state.screen, Screen::Help);
    assert_eq!(state.overlay_base, Screen::Detail);
    state.go_back();
    assert_eq!(state.screen, Screen::Detail);

    state.screen = Screen::Playback;
    state.open_settings();
    assert_eq!(state.settings_cursor, 0);
    state.go_back();
    assert_eq!(state.screen, Screen::Detail);

    state.screen = Screen::Home;
    state.open_setup();
    state.open_search();
    assert_eq!(state.overlay_base, Screen::Home);
    state.go_back();
    assert_eq!(state.screen, Screen::Home);
    assert!(!state.should_quit);
}

#[test]
fn playback_overlays_go_back_to_detail() {
    let mut state = AppState::new();
    let anime = dummy_anime(3);
    state.open_detail(anime.clone());
    state.open_playback_query_picker(&anime);
    assert_eq!(state.screen, Screen::PlaybackQuery);
    assert_eq!(state.playback_queries, vec!["Test"]);
    state.open_playback_options("Test".to_string(), 2, true);
    assert_eq!(state.screen, Screen::PlaybackOptions);
    assert_eq!(state.pending_playback_query.as_deref(), Some("Test"));
    assert_eq!(state.playback_quality_cursor, 2);
    assert!(state.pending_dub);
    state.go_back();
    assert_eq!(state.screen, Screen::Detail);
}

#[test]
fn back_restores_the_saved_detail_screen() {
    let mut state = AppState::new();
    state.open_detail(dummy_anime(10));
    state.in_watchlist = true;
    state.set_watched_episodes([1, 2].into_iter().collect());
    state.detail_focus = DetailFocus::Related;
    state.detail_related_cursor = 2;
    let mut reasons = HashMap::new();
    reasons.insert(11, "Same genre".to_string());
    state.detail_recommendation_reasons = reasons;
    state.detail_recommendations = vec![dummy_anime(11)];
    state.push_detail_snapshot();
    assert_eq!(state.detail_history.len(), 1);

    let mut related = dummy_anime(11);
    related.episodes = Some(3);
    state.open_detail(related);
    state.in_watchlist = false;
    assert_eq!(state.episode_list, vec![1, 2, 3]);

    state.go_back();
    assert_eq!(state.screen, Screen::Detail);
    assert_eq!(state.selected_anime.as_ref().unwrap().id, 10);
    assert!(state.in_watchlist);
    assert_eq!(state.episode_list.len(), 12);
    assert_eq!(state.selected_episode, Some(3));
    assert_eq!(state.detail_focus, DetailFocus::Related);
    assert_eq!(state.detail_related_cursor, 2);
    assert_eq!(state.detail_recommendations.len(), 1);
    assert_eq!(state.detail_recommendation_reasons.get(&11).map(String::as_str), Some("Same genre"));
    assert!(state.detail_history.is_empty());

    state.go_back();
    assert_eq!(state.screen, Screen::Home);
}

#[test]
fn snapshot_without_selection_does_nothing() {
    let mut state = AppState::new();
    state.push_detail_snapshot();
    assert!(state.detail_history.is_empty());
}

#[test]
fn episode_offset_pages_by_ten() {
    let mut state = AppState::new();
    let mut long = dummy_anime(5);
    long.episodes = Some(40);
    state.open_detail(long);
    state.set_watched_episodes((1..=24).collect());
    assert_eq!(state.selected_episode, Some(25));
    assert_eq!(state.episode_offset, 20);
    state.set_watched_episodes((1..=10).collect());
    assert_eq!(state.episode_offset, 10);
}

#[test]
fn unknown_episode_count_gives_a_single_episode() {
    let mut state = AppState::new();
    let mut a = dummy_anime(6);
    a.episodes = None;
    state.open_detail(a);
    assert_eq!(state.episode_list, vec![1]);
    assert_eq!(state.next_unwatched_episode(), 1);
    state.set_watched_episodes([1].into_iter().collect());
    assert_eq!(state.selected_episode, Some(1));
    assert_eq!(state.watched_episodes, HashSet::from([1]));
}

#[test]
fn toast_expires_after_four_seconds() {
    let mut state = AppState::new();
    state.show_toast("Added".to_string(), 100);
    assert_eq!(state.active_toast(103), Some("Added"));
    assert_eq!(state.active_toast(104), None);
    assert!(state.toast.is_none());
}

#[test]
fn stop_player_signals_and_clears() {
    let (tx, mut rx) = tokio::sync::oneshot::channel::<()>();
    let mut state = AppState::new();
    state.player_stop = Some(tx);
    state.now_playing = Some("Naruto E1".to_string());
    state.stop_player();
    assert!(state.player_stop.is_none());
    assert!(state.now_playing.is_none());
    assert_eq!(rx.try_recv(), Ok(()));
}

#[test]
fn image_support_and_dependencies() {
    let mut state = AppState::new();
    assert!(!state.has_image_support());
    state.image_protocol = Some(ImageProtocol::Halfblocks);
    assert!(!state.has_image_support());
    state.image_protocol = Some(ImageProtocol::Kitty);
    assert!(state.has_image_support());
    state.set_dependencies(true, false, false, false);
    assert!(!state.has_any_player());
    state.set_dependencies(false, false, true, false);
    assert!(state.has_any_player());
    assert!(!state.has_ani_cli);
}

#[test]
fn cover_is_kept_only_for_the_same_anime() {
    let mut state = AppState::new();
    state.open_detail(dummy_anime(1));
    state.cover_ready = true;
    state.open_detail(dummy_anime(1));
    assert!(state.cover_ready);
    state.open_detail(dummy_anime(2));
    assert!(!state.cover_ready);
    assert_eq!(state.cover_anime_id, Some(2));
}

#[test]
fn keys_of_the_main_loop() {
    let mut state = AppState::new();
    state.handle_key(Key::Char('x'), false, &HomeData::empty());
    assert!(!state.should_quit);
    state.handle_key(Key::Char('c'), false, &HomeData::empty());
    assert!(!state.should_quit);
    state.screen = Screen::Playback;
    state.handle_key(Key::Esc, false, &HomeData::empty());
    assert_eq!(state.screen, Screen::Detail);
    state.handle_key(Key::Char('c'), true, &HomeData::empty());
    assert!(state.should_quit);
    let mut other = AppState::new();
    other.handle_key(Key::Char('q'), false, &HomeData::empty());
    assert!(other.should_quit);
}

#[test]
fn scroll_right_then_left_returns() {
    let mut state = AppState::new();
    state.scroll_row_right("popular", 5);
    state.scroll_row_right("popular", 5);
    state.scroll_row_left("popular");
    assert_eq!(state.row_offset("popular"), 1);
    assert_eq!(state.row_offset("trending"), 0);
    state.scroll_row_right("trending", 0);
    assert_eq!(state.row_offset("trending"), 0);
}

#[test]
fn q_goes_back_on_detail_and_stops_playback() {
    let mut state = AppState::new();
    state.open_detail(dummy_anime(1));
    state.handle_key(Key::Char('q'), false, &HomeData::empty());
    assert_eq!(state.screen, Screen::Home);
    assert!(!state.should_quit);

    let (tx, mut rx) = tokio::sync::oneshot::channel::<()>();
    state.screen = Screen::Playback;
    state.player_stop = Some(tx);
    state.now_playing = Some("E1".to_string());
    state.handle_key(Key::Char('q'), false, &HomeData::empty());
    assert_eq!(state.screen, Screen::Detail);
    assert!(state.player_stop.is_none() && state.now_playing.is_none());
    assert_eq!(rx.try_recv(), Ok(()));
    assert!(!state.should_quit);

    let (tx, mut rx) = tokio::sync::oneshot::channel::<()>();
    state.screen = Screen::Playback;
    state.player_stop = Some(tx);
    state.handle_key(Key::Esc, false, &HomeData::empty());
    assert_eq!(state.screen, Screen::Detail);
    assert_eq!(rx.try_recv(), Ok(()));

    state.screen = Screen::Search;
    state.handle_key(Key::Char('q'), false, &HomeData::empty());
    assert!(state.should_quit);
}

fn home_with_rows() -> HomeData {
    HomeData::from_rows(
        Some(vec![dummy_anime(10), dummy_anime(11), dummy_anime(12)]),
        None,
        Some(vec![dummy_anime(30)]),
        None,
        None,
        Some(vec![dummy_anime(50)]),
    )
}

#[test]
fn home_keys_move_rows_scroll_and_open() {
    let data = home_with_rows();
    let mut state = AppState::new();
    assert_eq!(state.active_row, CategoryRow::Trending);
    assert_eq!(state.handle_key(Key::Char('k'), false, &data), KeyAction::Nothing);
    assert_eq!(state.active_row, CategoryRow::Watchlist);
    state.handle_key(Key::Char('k'), false, &data);
    assert_eq!(state.active_row, CategoryRow::Watchlist);
    state.handle_key(Key::Char('j'), false, &data);
    state.handle_key(Key::Down, false, &data);
    assert_eq!(state.active_row, CategoryRow::TopRated);
    state.handle_key(Key::Char('j'), false, &data);
    assert_eq!(state.active_row, CategoryRow::TopRated);
    state.handle_key(Key::Up, false, &data);
    assert_eq!(state.active_row, CategoryRow::Trending);
    // A row that is not shown: the cursor goes to the first visible row.
    state.active_row = CategoryRow::ContinueWatching;
    state.handle_key(Key::Char('k'), false, &data);
    assert_eq!(state.active_row, CategoryRow::Watchlist);

    state.handle_key(Key::Char('j'), false, &data);
    assert_eq!(state.active_row, CategoryRow::Trending);
    state.handle_key(Key::Char('l'), false, &data);
    state.handle_key(Key::Right, false, &data);
    state.handle_key(Key::Char('l'), false, &data);
    assert_eq!(state.row_offset("trending"), 2);
    state.handle_key(Key::Char('h'), false, &data);
    assert_eq!(state.row_offset("trending"), 1);

    assert_eq!(state.handle_key(Key::Char('r'), false, &data), KeyAction::Refresh);
    assert_eq!(state.handle_key(Key::Enter, false, &data), KeyAction::LoadDetail(11));
    assert_eq!(state.screen, Screen::Detail);
    assert_eq!(state.selected_anime.as_ref().map(|a| a.id), Some(11));
    assert_eq!(state.selected_episode, Some(1));
}

#[test]
fn home_enter_on_empty_row_does_nothing() {
    let mut state = AppState::new();
    assert_eq!(state.handle_key(Key::Enter, false, &HomeData::empty()), KeyAction::Nothing);
    assert_eq!(state.screen, Screen::Home);
    assert!(state.selected_anime.is_none());
}

#[test]
fn home_slash_and_question_mark_open_overlays() {
    let data = HomeData::empty();
    let mut state = AppState::new();
    state.handle_key(Key::Char('/'), false, &data);
    assert_eq!(state.screen, Screen::Search);
    state.handle_key(Key::Esc, false, &data);
    assert_eq!(state.screen, Screen::Home);
    state.handle_key(Key::Char('?'), false, &data);
    assert_eq!(state.screen, Screen::Help);
    state.handle_key(Key::Char('?'), false, &data);
    assert_eq!(state.screen, Screen::Home);
    assert!(!state.should_quit);
}

#[test]
fn detail_keys_pick_play_and_toggle() {
    let data = HomeData::empty();
    let mut state = AppState::new();
    state.open_detail(dummy_anime(7));
    state.handle_key(Key::Char('h'), false, &data);
    assert_eq!(state.selected_episode, Some(1));
    for _ in 0..11 {
        state.handle_key(Key::Char('l'), false, &data);
    }
    assert_eq!(state.selected_episode, Some(12));
    assert_eq!(state.episode_offset, 10);
    state.handle_key(Key::Right, false, &data);
    assert_eq!(state.selected_episode, Some(12));
    state.handle_key(Key::Left, false, &data);
    assert_eq!(state.selected_episode, Some(11));
    assert_eq!(state.episode_offset, 10);

    assert_eq!(state.handle_key(Key::Char('+'), false, &data), KeyAction::AddToWatchlist(7));
    assert!(state.in_watchlist);
    assert_eq!(state.handle_key(Key::Char('+'), false, &data), KeyAction::RemoveFromWatchlist(7));
    assert!(!state.in_watchlist);

    assert_eq!(state.handle_key(Key::Enter, false, &data), KeyAction::Play(11));
    assert_eq!(state.screen, Screen::Playback);
}

#[test]
fn next_episode_keys() {
    let data = HomeData::empty();
    let mut state = AppState::new();
    state.open_detail(dummy_anime(7));
    assert_eq!(state.handle_key(Key::Char('n'), false, &data), KeyAction::Play(2));
    assert_eq!(state.screen, Screen::Playback);
    assert_eq!(state.selected_episode, Some(2));

    let (tx, mut rx) = tokio::sync::oneshot::channel::<()>();
    state.player_stop = Some(tx);
    state.now_playing = Some("E2".to_string());
    assert_eq!(state.handle_key(Key::Char('n'), false, &data), KeyAction::Play(3));
    assert_eq!(rx.try_recv(), Ok(()));
    assert!(state.player_stop.is_none() && state.now_playing.is_none());
    assert_eq!(state.screen, Screen::Playback);
    assert_eq!(state.selected_episode, Some(3));
}

#[test]
fn search_keys_move_and_open() {
    let data = HomeData::empty();
    let mut state = AppState::new();
    state.open_search();
    assert_eq!(state.handle_key(Key::Enter, false, &data), KeyAction::Nothing);
    assert_eq!(state.screen, Screen::Search);
    state.search_results = vec![dummy_anime(1), dummy_anime(2)];
    state.handle_key(Key::Char('k'), false, &data);
    assert_eq!(state.search_cursor, 0);
    state.handle_key(Key::Char('j'), false, &data);
    state.handle_key(Key::Down, false, &data);
    assert_eq!(state.search_cursor, 1);
    assert_eq!(state.handle_key(Key::Enter, false, &data), KeyAction::LoadDetail(2));
    assert_eq!(state.screen, Screen::Detail);
    assert_eq!(state.selected_anime.as_ref().map(|a| a.id), Some(2));
}

#[test]
fn watched_set_keeps_episode_numbers() {
    let w = watched_set(&vec![3, 1, 3, -2, 5_000_000_000, 4_294_967_295]);
    let mut expected = HashSet::new();
    expected.insert(1u32);
    expected.insert(3u32);
    expected.insert(4_294_967_295u32);
    assert_eq!(w, expected);
    assert!(watched_set(&vec![]).is_empty());
}

#[test]
fn help_toggles_on_detail() {
    let data = HomeData::empty();
    let mut state = AppState::new();
    state.open_detail(dummy_anime(4));
    state.handle_key(Key::Char('l'), false, &data);
    assert_eq!(state.handle_key(Key::Char('?'), false, &data), KeyAction::Nothing);
    assert_eq!(state.screen, Screen::Help);
    assert_eq!(state.handle_key(Key::Char('?'), false, &data), KeyAction::Nothing);
    assert_eq!(state.screen, Screen::Detail);
    assert_eq!(state.selected_episode, Some(2));
    assert_eq!(state.selected_anime.as_ref().map(|a| a.id), Some(4));
}

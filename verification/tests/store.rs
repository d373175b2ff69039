use ani_tui::anime::Anime;
use ani_tui::store::{
    anime_ids, category_positions, connection_url, is_in_memory, is_stale_at, search_pattern,
    Category, ContinueEntry, HistoryEntry,
};

#[test]
fn never_synced_is_stale() {
    assert!(is_stale_at(None, 86_400, 1_000_000));
}

#[test]
fn recently_synced_is_not_stale() {
    let now = 1_700_000_000i64;
    assert!(!is_stale_at(Some(now), 86_400, now + 3600));
}

#[test]
fn old_sync_is_stale() {
    let then = 1_700_000_000i64;
    assert!(is_stale_at(Some(then), 86_400, then + 60 * 60 * 25));
}

#[test]
fn stale_only_strictly_after_the_ttl() {
    assert!(!is_stale_at(Some(0), 100, 100));
    assert!(is_stale_at(Some(0), 100, 101));
    // A lifetime beyond i64::MAX is read as a negative number of seconds.
    assert!(is_stale_at(Some(0), u64::MAX, 0));
}

#[test]
fn category_keys_round_trip() {
    for c in [Category::Trending, Category::Popular, Category::TopRated, Category::Seasonal] {
        assert_eq!(Category::from_key(c.key()), Some(c));
    }
    assert_eq!(Category::TopRated.key(), "top_rated");
    assert_eq!(Category::from_key("recommended"), None);
}

#[test]
fn positions_number_the_ids_in_order() {
    assert_eq!(category_positions(&vec![3, 1]), vec![(3, 0), (1, 1)]);
    assert!(category_positions(&vec![]).is_empty());
}

#[test]
fn ids_of_a_list() {
    let a = |id| Anime {
        id,
        title_english: None,
        title_romaji: String::new(),
        title_native: None,
        description: None,
        episodes: None,
        status: None,
        season: None,
        season_year: None,
        score: None,
        format: None,
        genres: "[]".into(),
        cover_url: None,
        cover_blob: None,
        has_dub: 0,
        updated_at: 0,
    };
    assert_eq!(anime_ids(&vec![a(4), a(2)]), vec![4, 2]);
}

#[test]
fn search_pattern_escapes_wildcards() {
    assert_eq!(search_pattern("_"), "%\\_%");
    assert_eq!(search_pattern("100%"), "%100\\%%");
    assert_eq!(search_pattern("a\\b"), "%a\\\\b%");
    assert_eq!(search_pattern("Re:Zero"), "%Re:Zero%");
}

#[test]
fn search_patterns_and_addresses() {
    assert_eq!(search_pattern("naruto"), "%naruto%");
    assert_eq!(search_pattern(""), "%%");
    assert!(is_in_memory(":memory:"));
    assert!(!is_in_memory("/tmp/ani-tui.db"));
    assert_eq!(connection_url(":memory:"), "sqlite://:memory:?mode=rwc");
    assert_eq!(connection_url("/a/b.db"), "sqlite:///a/b.db?mode=rwc");
}

#[test]
fn row_types_hold_their_fields() {
    let h = HistoryEntry { anime_id: 1, episode: 3, watched_at: 1_700_000_000 };
    let c = ContinueEntry { anime_id: 1, last_episode: 4, last_watched: 1_000 };
    assert_eq!(h.episode, 3);
    assert_eq!(c.last_episode, 4);
    assert_eq!(h, h.clone());
}

use ani_tui::anime::Anime;
use ani_tui::error::AppError;
use ani_tui::store::ContinueEntry;
use ani_tui::sync::{
    continue_watching_ids, keep_found, plan_category_sync, season_from_timestamp, watchlist_ids,
    FetchRequest, SyncStep,
};

#[test]
fn test_winter_january() {
    let ts = 1_768_521_600i64;
    let (season, year) = season_from_timestamp(ts);
    assert_eq!(season, "WINTER");
    assert_eq!(year, 2026);
}

#[test]
fn test_spring_april() {
    let ts = 1_775_865_600i64;
    let (season, _) = season_from_timestamp(ts);
    assert_eq!(season, "SPRING");
}

#[test]
fn test_summer_july() {
    let ts = 1_784_160_000i64;
    let (season, _) = season_from_timestamp(ts);
    assert_eq!(season, "SUMMER");
}

#[test]
fn test_fall_october() {
    let ts = 1_792_540_800i64;
    let (season, _) = season_from_timestamp(ts);
    assert_eq!(season, "FALL");
}

#[test]
fn test_season_year_is_reasonable() {
    let ts = 1_740_787_200i64;
    let (_, year) = season_from_timestamp(ts);
    assert!(year >= 2025 && year <= 2026);
}

#[test]
fn season_boundary_days_and_epoch() {
    let day = 86_400i64;
    assert_eq!(season_from_timestamp(0), ("WINTER".to_string(), 1970));
    assert_eq!(season_from_timestamp(89 * day).0, "WINTER");
    assert_eq!(season_from_timestamp(90 * day).0, "SPRING");
    assert_eq!(season_from_timestamp(180 * day).0, "SPRING");
    assert_eq!(season_from_timestamp(181 * day).0, "SUMMER");
    assert_eq!(season_from_timestamp(272 * day).0, "SUMMER");
    assert_eq!(season_from_timestamp(273 * day).0, "FALL");
    assert_eq!(season_from_timestamp(364 * day).0, "FALL");
    assert_eq!(season_from_timestamp(365 * day), ("WINTER".to_string(), 1971));
}

#[test]
fn season_before_epoch_truncates_toward_zero() {
    // One day before the epoch: day -1 of year 1970 falls in the last arm.
    assert_eq!(season_from_timestamp(-86_400), ("FALL".to_string(), 1970));
    assert_eq!(season_from_timestamp(i64::MIN), ("FALL".to_string(), -292_471_206_707));
}

fn anime(id: i64) -> Anime {
    Anime {
        id,
        title_english: None,
        title_romaji: format!("Anime {}", id),
        title_native: None,
        description: None,
        episodes: Some(12),
        status: None,
        season: None,
        season_year: None,
        score: Some(80),
        format: None,
        genres: "[]".into(),
        cover_url: None,
        cover_blob: None,
        has_dub: 0,
        updated_at: 0,
    }
}

#[test]
fn fresh_category_reads_the_cache() {
    assert_eq!(plan_category_sync("trending", false, 0), SyncStep::UseCache);
    assert_eq!(plan_category_sync("nonsense", false, 0), SyncStep::UseCache);
}

#[test]
fn stale_categories_fetch_their_pages() {
    assert_eq!(plan_category_sync("trending", true, 0), SyncStep::Fetch(FetchRequest::Trending));
    assert_eq!(plan_category_sync("popular", true, 0), SyncStep::Fetch(FetchRequest::Popular));
    assert_eq!(plan_category_sync("top_rated", true, 0), SyncStep::Fetch(FetchRequest::TopRated));
    assert_eq!(
        plan_category_sync("seasonal", true, 1_768_521_600),
        SyncStep::Fetch(FetchRequest::Seasonal { season: "WINTER".to_string(), year: 2026 })
    );
}

#[test]
fn stale_unknown_category_fails() {
    assert_eq!(
        plan_category_sync("movies", true, 0),
        SyncStep::Fail(AppError::Parse("Unknown category: movies".to_string()))
    );
}

#[test]
fn personal_rows_take_at_most_twenty() {
    let entries: Vec<ContinueEntry> = (0..25)
        .map(|i| ContinueEntry { anime_id: i, last_episode: 1, last_watched: 100 - i })
        .collect();
    let ids = continue_watching_ids(&entries);
    assert_eq!(ids, (0..20).collect::<Vec<i64>>());
    let few = vec![ContinueEntry { anime_id: 2, last_episode: 1, last_watched: 2000 },
                   ContinueEntry { anime_id: 1, last_episode: 1, last_watched: 1000 }];
    assert_eq!(continue_watching_ids(&few), vec![2, 1]);
    assert_eq!(watchlist_ids(&(0..30).collect()), (0..20).collect::<Vec<i64>>());
    assert!(watchlist_ids(&vec![]).is_empty());
}

#[test]
fn keep_found_drops_missing_entries_in_order() {
    let found = vec![Some(anime(2)), None, Some(anime(1)), None];
    let kept = keep_found(found);
    let ids: Vec<i64> = kept.iter().map(|a| a.id).collect();
    assert_eq!(ids, vec![2, 1]);
    assert!(keep_found(vec![]).is_empty());
}

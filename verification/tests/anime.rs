use ani_tui::anime::{convert_page, Anime, RawAnime, RawCoverImage, RawTitle};

fn sample_anime(id: i64, title: &str) -> Anime {
    Anime {
        id,
        title_english: Some(title.to_string()),
        title_romaji: title.to_string(),
        title_native: None,
        description: Some("Test description".to_string()),
        episodes: Some(24),
        status: Some("FINISHED".to_string()),
        season: Some("FALL".to_string()),
        season_year: Some(2023),
        score: Some(85),
        format: Some("TV".to_string()),
        genres: r#"["Action","Drama"]"#.to_string(),
        cover_url: Some("https://example.com/cover.jpg".to_string()),
        cover_blob: None,
        has_dub: 0,
        updated_at: 1_700_000_000,
    }
}

fn raw_anime_fixture(id: i64, english: Option<&str>, romaji: &str) -> RawAnime {
    RawAnime {
        id,
        title: RawTitle {
            english: english.map(str::to_string),
            romaji: Some(romaji.to_string()),
            native: None,
        },
        description: Some("A test anime".to_string()),
        episodes: Some(24),
        status: Some("FINISHED".to_string()),
        season: Some("FALL".to_string()),
        season_year: Some(2023),
        average_score: Some(87),
        format: Some("TV".to_string()),
        genres: vec!["Action".to_string(), "Drama".to_string()],
        cover_image: Some(RawCoverImage {
            large: Some("https://example.com/cover.jpg".to_string()),
        }),
    }
}

#[test]
fn test_anime_display_title_prefers_english() {
    let mut anime = sample_anime(1, "Sousou no Frieren");
    anime.title_english = Some("Frieren: Beyond Journey's End".to_string());
    assert_eq!(anime.display_title(), "Frieren: Beyond Journey's End");
}

#[test]
fn test_anime_display_title_falls_back_to_romaji() {
    let mut anime = sample_anime(1, "Sousou no Frieren");
    anime.title_english = None;
    assert_eq!(anime.display_title(), "Sousou no Frieren");
}

#[test]
fn test_anime_short_title_truncates() {
    let mut anime = sample_anime(1, "A Very Long Anime Title That Should Be Truncated");
    anime.title_english = None;
    let short = anime.short_title();
    let char_count = short.chars().count();
    assert!(char_count <= 20, "Expected ≤20 chars, got {}", char_count);
    assert!(short.ends_with('…'));
}

#[test]
fn test_anime_genre_list_decodes() {
    let anime = sample_anime(1, "Test");
    assert_eq!(anime.genre_list(), vec!["Action", "Drama"]);
}

#[test]
fn test_anime_has_dub_flag() {
    let mut anime = sample_anime(1, "Test");
    anime.has_dub = 0;
    assert!(!anime.has_dub());
    anime.has_dub = 1;
    assert!(anime.has_dub());
}

#[test]
fn test_raw_anime_into_anime_with_english_title() {
    let raw = raw_anime_fixture(1535, Some("Sword Art Online"), "Sword Art Online");
    let anime = raw.into_anime(1_700_000_000);
    assert_eq!(anime.id, 1535);
    assert_eq!(anime.title_english, Some("Sword Art Online".to_string()));
    assert_eq!(anime.title_romaji, "Sword Art Online");
    assert_eq!(anime.score, Some(87));
    assert_eq!(anime.episodes, Some(24));
}

#[test]
fn test_raw_anime_into_anime_without_english_title() {
    let raw = raw_anime_fixture(1, None, "Sousou no Frieren");
    let anime = raw.into_anime(0);
    assert!(anime.title_english.is_none());
    assert_eq!(anime.title_romaji, "Sousou no Frieren");
}

#[test]
fn test_raw_anime_genres_serialized_to_json() {
    let raw = raw_anime_fixture(1, None, "Test");
    let anime = raw.into_anime(0);
    let genres: Vec<String> = serde_json::from_str(&anime.genres).unwrap();
    assert_eq!(genres, vec!["Action", "Drama"]);
}

#[test]
fn test_raw_anime_cover_url_extracted() {
    let raw = raw_anime_fixture(1, None, "Test");
    let anime = raw.into_anime(0);
    assert_eq!(anime.cover_url, Some("https://example.com/cover.jpg".to_string()));
}

#[test]
fn test_raw_anime_no_cover_image() {
    let mut raw = raw_anime_fixture(1, None, "Test");
    raw.cover_image = None;
    let anime = raw.into_anime(0);
    assert!(anime.cover_url.is_none());
}

#[test]
fn test_raw_anime_empty_romaji_uses_unknown() {
    let raw = RawAnime {
        id: 99,
        title: RawTitle { english: None, romaji: None, native: None },
        description: None,
        episodes: None,
        status: None,
        season: None,
        season_year: None,
        average_score: None,
        format: None,
        genres: vec![],
        cover_image: None,
    };
    let anime = raw.into_anime(0);
    assert_eq!(anime.title_romaji, "Unknown");
}

#[test]
fn test_raw_anime_has_dub_defaults_to_zero() {
    let raw = raw_anime_fixture(1, None, "Test");
    let anime = raw.into_anime(0);
    assert_eq!(anime.has_dub, 0);
}

#[test]
fn test_raw_anime_updated_at_is_set() {
    let raw = raw_anime_fixture(1, None, "Test");
    let now = 1_700_123_456i64;
    let anime = raw.into_anime(now);
    assert_eq!(anime.updated_at, now);
}

#[test]
fn genres_are_stored_as_exact_json_and_round_trip() {
    let anime = raw_anime_fixture(1, None, "Test").into_anime(0);
    assert_eq!(anime.genres, r#"["Action","Drama"]"#);
    assert_eq!(anime.genre_list(), vec!["Action", "Drama"]);
    let mut empty = raw_anime_fixture(2, None, "Test");
    empty.genres = vec![];
    assert_eq!(empty.into_anime(0).genres, "[]");
}

#[test]
fn genre_list_is_empty_when_json_is_invalid() {
    let mut anime = sample_anime(1, "Test");
    anime.genres = "not json".to_string();
    assert!(anime.genre_list().is_empty());
}

#[test]
fn empty_english_title_falls_back_to_romaji() {
    let mut anime = sample_anime(1, "Romaji");
    anime.title_english = Some(String::new());
    assert_eq!(anime.display_title(), "Romaji");
}

#[test]
fn short_title_keeps_twenty_characters_and_cuts_at_twenty_one() {
    let mut anime = sample_anime(1, "");
    anime.title_english = Some("12345678901234567890".to_string());
    assert_eq!(anime.short_title(), "12345678901234567890");
    anime.title_english = Some("123456789012345678901".to_string());
    assert_eq!(anime.short_title(), "1234567890123456789…");
}

#[test]
fn playback_queries_list_distinct_titles() {
    let mut anime = sample_anime(1, "Sousou no Frieren");
    assert_eq!(anime.playback_queries(), vec!["Sousou no Frieren"]);
    anime.title_english = Some("Frieren".to_string());
    assert_eq!(anime.playback_queries(), vec!["Frieren", "Sousou no Frieren"]);
}

#[test]
fn clone_keeps_every_field() {
    let mut anime = sample_anime(7, "Clone Me");
    anime.cover_blob = Some(vec![0xDE, 0xAD, 0xBE, 0xEF]);
    let copy = anime.clone();
    assert_eq!(copy.id, 7);
    assert_eq!(copy.cover_blob, Some(vec![0xDE, 0xAD, 0xBE, 0xEF]));
    assert_eq!(copy.title_romaji, "Clone Me");
    assert_eq!(copy.genres, anime.genres);
}

#[test]
fn convert_page_keeps_order() {
    let raws = vec![
        raw_anime_fixture(3, None, "C"),
        raw_anime_fixture(1, None, "A"),
        raw_anime_fixture(2, None, "B"),
    ];
    let page = convert_page(raws, 42);
    let ids: Vec<i64> = page.iter().map(|a| a.id).collect();
    assert_eq!(ids, vec![3, 1, 2]);
    assert!(page.iter().all(|a| a.updated_at == 42));
}

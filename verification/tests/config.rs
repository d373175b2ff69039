use ani_tui::config::{
    app_dirs_key, audio_index, config_dir_from, path_in, player_index, quality_index, AudioMode, CacheConfig,
    Config, Player, Quality, APP_NAME,
};
use ani_tui::error::AppError;

#[test]
fn test_default_config_values() {
    let cfg = Config::default();
    assert_eq!(cfg.quality, Quality::P1080);
    assert_eq!(cfg.audio_mode, AudioMode::Sub);
    assert_eq!(cfg.player, Player::Mpv);
    assert_eq!(cfg.cache.trending_ttl, 86_400);
    assert_eq!(cfg.cache.stable_ttl, 604_800);
}

#[test]
fn test_quality_as_str() {
    assert_eq!(Quality::P720.as_str(), "720p");
    assert_eq!(Quality::P1080.as_str(), "1080p");
    assert_eq!(Quality::Best.as_str(), "best");
}

#[test]
fn test_player_as_str() {
    assert_eq!(Player::Mpv.as_str(), "mpv");
    assert_eq!(Player::Vlc.as_str(), "vlc");
}

#[test]
fn test_load_missing_file_returns_default() {
    let cfg = Config::default();
    assert_eq!(cfg.quality, Quality::P1080);
}

#[test]
fn test_config_dir_is_some() {
    assert!(Config::config_dir().is_ok());
}

#[test]
fn remaining_quality_names_and_detail_ttl() {
    assert_eq!(Quality::P360.as_str(), "360p");
    assert_eq!(Quality::P480.as_str(), "480p");
    assert_eq!(CacheConfig::default().detail_ttl, 172_800);
}

#[test]
fn config_and_db_paths_end_with_their_file_names() {
    let cfg = Config::config_path().unwrap();
    let db = Config::db_path().unwrap();
    let dir = Config::config_dir().unwrap();
    assert!(cfg.ends_with("config.toml"));
    assert!(db.ends_with("ani-tui.db"));
    assert!(cfg.starts_with(&dir));
    assert!(db.starts_with(&dir));
    assert!(dir.ends_with("ani-tui"));
}

#[test]
fn settings_indexes_follow_the_choice_lists() {
    assert_eq!(player_index(&Player::Mpv), 0);
    assert_eq!(player_index(&Player::Vlc), 2);
    assert_eq!(quality_index(&Quality::Best), 0);
    assert_eq!(quality_index(&Quality::P1080), 1);
    assert_eq!(quality_index(&Quality::P720), 2);
    assert_eq!(quality_index(&Quality::P480), 3);
    assert_eq!(quality_index(&Quality::P360), 4);
    assert_eq!(audio_index(&AudioMode::Sub), 0);
    assert_eq!(audio_index(&AudioMode::Dub), 1);
}

#[test]
fn found_directory_gives_the_file_path() {
    assert_eq!(
        path_in(Ok("/home/alice/.config/ani-tui".to_string()), "config.toml"),
        Ok("/home/alice/.config/ani-tui/config.toml".to_string())
    );
    assert_eq!(
        path_in(Ok("/home/alice/.config/ani-tui".to_string()), "ani-tui.db"),
        Ok("/home/alice/.config/ani-tui/ani-tui.db".to_string())
    );
    assert_eq!(config_dir_from(Some("/x".to_string())), Ok("/x".to_string()));
    assert_eq!(APP_NAME, "ani-tui");
}

#[test]
fn missing_directory_is_a_config_error() {
    let err = AppError::Config("Could not determine config directory".to_string());
    assert_eq!(path_in(Err(err.clone()), "config.toml"), Err(err.clone()));
    assert_eq!(config_dir_from(None), Err(err));
}

#[test]
fn directories_are_looked_up_under_the_application_name() {
    assert_eq!(app_dirs_key(), ("", "", "ani-tui"));
}

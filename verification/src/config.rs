//! User preferences: video quality, audio mode, player and cache lifetimes.

use vstd::prelude::*;
use crate::error::AppError;

verus! {

/// Video quality preference.
#[derive(Debug, Clone, Copy, PartialEq, Eq, Structural)]
pub enum Quality {
    P360,
    P480,
    P720,
    P1080,
    Best,
}

/// The text that ani-cli understands for each quality.
pub open spec fn quality_text(q: Quality) -> Seq<char> {
    match q {
        Quality::P360 => "360p"@,
        Quality::P480 => "480p"@,
        Quality::P720 => "720p"@,
        Quality::P1080 => "1080p"@,
        Quality::Best => "best"@,
    }
}

impl Quality {
    pub fn as_str(&self) -> (r: &'static str)
        ensures
            r@ == quality_text(*self),
    {
        match self {
            Quality::P360 => "360p",
            Quality::P480 => "480p",
            Quality::P720 => "720p",
            Quality::P1080 => "1080p",
            Quality::Best => "best",
        }
    }
}

impl Default for Quality {
    fn default() -> (r: Self)
        ensures
            r == Quality::P1080,
    {
        Quality::P1080
    }
}

/// Sub or dub preference.
#[derive(Debug, Clone, Copy, PartialEq, Eq, Structural)]
pub enum AudioMode {
    Sub,
    Dub,
}

impl Default for AudioMode {
    fn default() -> (r: Self)
        ensures
            r == AudioMode::Sub,
    {
        AudioMode::Sub
    }
}

/// Video player to use.
#[derive(Debug, Clone, Copy, PartialEq, Eq, Structural)]
pub enum Player {
    Mpv,
    Vlc,
}

pub open spec fn player_text(p: Player) -> Seq<char> {
    match p {
        Player::Mpv => "mpv"@,
        Player::Vlc => "vlc"@,
    }
}

impl Player {
    pub fn as_str(&self) -> (r: &'static str)
        ensures
            r@ == player_text(*self),
    {
        match self {
            Player::Mpv => "mpv",
            Player::Vlc => "vlc",
        }
    }
}

impl Default for Player {
    fn default() -> (r: Self)
        ensures
            r == Player::Mpv,
    {
        Player::Mpv
    }
}

/// Cache lifetimes, in seconds, of the catalogue rows.
#[derive(Debug, Clone, Copy, PartialEq, Eq)]
pub struct CacheConfig {
    /// Trending and seasonal rows (default: 24h).
    pub trending_ttl: u64,
    /// Popular and top-rated rows (default: 7 days).
    pub stable_ttl: u64,
    /// Individual anime detail (default: 48h).
    pub detail_ttl: u64,
}

impl Default for CacheConfig {
    fn default() -> (r: Self)
        ensures
            r.trending_ttl == 86400,
            r.stable_ttl == 604800,
            r.detail_ttl == 172800,
    {
        CacheConfig {
            trending_ttl: 60 * 60 * 24,
            stable_ttl: 60 * 60 * 24 * 7,
            detail_ttl: 60 * 60 * 48,
        }
    }
}

/// The persisted user configuration.
#[derive(Debug, Clone, Copy, PartialEq, Eq)]
pub struct Config {
    pub quality: Quality,
    pub audio_mode: AudioMode,
    pub player: Player,
    pub cache: CacheConfig,
}

impl Default for Config {
    fn default() -> (r: Self)
        ensures
            r.quality == Quality::P1080,
            r.audio_mode == AudioMode::Sub,
            r.player == Player::Mpv,
            r.cache.trending_ttl == 86400,
            r.cache.stable_ttl == 604800,
            r.cache.detail_ttl == 172800,
    {
        Config {
            quality: Quality::default(),
            audio_mode: AudioMode::default(),
            player: Player::default(),
            cache: CacheConfig::default(),
        }
    }
}

/// The path that joining the file name `name` onto the directory `base`
/// gives.
pub uninterp spec fn joined_path(base: Seq<char>, name: Seq<char>) -> Seq<char>;

/// The per-user configuration directory of an application, from
/// `directories::ProjectDirs::from(qualifier, organization, application)`
/// and its `config_dir`. It depends on the environment, so nothing is
/// stated of it; a directory whose path is not valid UTF-8 is reported as
/// missing.
#[verifier::external_body]
fn project_config_dir(qualifier: &str, organization: &str, application: &str) -> (r: Option<String>) {
    match directories::ProjectDirs::from(qualifier, organization, application) {
        Some(dirs) => dirs.config_dir().to_str().map(String::from),
        None => None,
    }
}

/// Joins a file name onto a directory with `std::path::Path::join`; the
/// result is named by `joined_path`.
#[verifier::external_body]
fn join_path(base: &str, name: &str) -> (r: String)
    ensures
        r@ == joined_path(base@, name@),
{
    std::path::Path::new(base).join(name).to_string_lossy().into_owned()
}

/// The error reported when no configuration directory can be determined.
pub open spec fn no_config_dir(e: AppError) -> bool {
    e == AppError::Config(e->Config_0) && e->Config_0@ == "Could not determine config directory"@
}

/// The name under which the application keeps its configuration.
pub const APP_NAME: &'static str = "ani-tui";

/// The configuration directory that a directory lookup gives: the
/// directory found, or the missing-directory error.
pub fn config_dir_from(found: Option<String>) -> (r: Result<String, AppError>)
    ensures
        match found {
            Some(d) => r is Ok && r->Ok_0@ == d@,
            None => r is Err && no_config_dir(r->Err_0),
        },
{
    match found {
        Some(dir) => Ok(dir),
        None => Err(AppError::Config(String::from_str("Could not determine config directory"))),
    }
}

/// The path of the file `name` inside the configuration directory that a
/// directory lookup gave, or that lookup's error unchanged.
pub fn path_in(dir: Result<String, AppError>, name: &str) -> (r: Result<String, AppError>)
    ensures
        match dir {
            Ok(d) => r is Ok && r->Ok_0@ == joined_path(d@, name@),
            Err(e) => r == Err::<String, AppError>(e),
        },
{
    match dir {
        Ok(d) => Ok(join_path(d.as_str(), name)),
        Err(e) => Err(e),
    }
}

/// The key under which the platform's per-user directories of the
/// application are looked up: no qualifier, no organization, and
/// [`APP_NAME`] as the application.
pub fn app_dirs_key() -> (k: (&'static str, &'static str, &'static str))
    ensures
        k.0@ == ""@,
        k.1@ == ""@,
        k.2@ == APP_NAME@,
{
    ("", "", APP_NAME)
}

impl Config {
    /// The platform's configuration directory of the application, e.g.
    /// `~/.config/ani-tui` on Linux: the lookup under [`app_dirs_key`],
    /// passed to [`config_dir_from`].
    pub fn config_dir() -> (r: Result<String, AppError>)
        ensures
            r is Err ==> no_config_dir(r->Err_0),
    {
        let (qualifier, organization, application) = app_dirs_key();
        config_dir_from(project_config_dir(qualifier, organization, application))
    }

    /// The path of `config.toml` inside the configuration directory: the
    /// outcome of [`Config::config_dir`], passed to [`path_in`].
    pub fn config_path() -> (r: Result<String, AppError>)
        ensures
            match r {
                Ok(p) => exists|dir: Seq<char>| p@ == joined_path(dir, "config.toml"@),
                Err(e) => no_config_dir(e),
            },
    {
        path_in(Self::config_dir(), "config.toml")
    }

    /// The path of the SQLite database inside the configuration directory,
    /// beside `config.toml`: the outcome of [`Config::config_dir`], passed
    /// to [`path_in`].
    pub fn db_path() -> (r: Result<String, AppError>)
        ensures
            match r {
                Ok(p) => exists|dir: Seq<char>| p@ == joined_path(dir, "ani-tui.db"@),
                Err(e) => no_config_dir(e),
            },
    {
        path_in(Self::config_dir(), "ani-tui.db")
    }
}

/// Position of each player among the choices of the settings overlay
/// (mpv, iina, vlc).
pub fn player_index(player: &Player) -> (r: usize)
    ensures
        r == (match *player { Player::Mpv => 0usize, Player::Vlc => 2usize }),
{
    match player {
        Player::Mpv => 0,
        Player::Vlc => 2,
    }
}

/// Position of each quality among the choices of the settings overlay
/// (best, 1080p, 720p, 480p, 360p).
pub fn quality_index(quality: &Quality) -> (r: usize)
    ensures
        r == (match *quality {
            Quality::Best => 0usize,
            Quality::P1080 => 1usize,
            Quality::P720 => 2usize,
            Quality::P480 => 3usize,
            Quality::P360 => 4usize,
        }),
{
    match quality {
        Quality::Best => 0,
        Quality::P1080 => 1,
        Quality::P720 => 2,
        Quality::P480 => 3,
        Quality::P360 => 4,
    }
}

/// Position of each audio mode among the choices of the settings overlay
/// (sub, dub).
pub fn audio_index(audio: &AudioMode) -> (r: usize)
    ensures
        r == (match *audio { AudioMode::Sub => 0usize, AudioMode::Dub => 1usize }),
{
    match audio {
        AudioMode::Sub => 0,
        AudioMode::Dub => 1,
    }
}

} // verus!

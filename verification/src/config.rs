//! Static configuration, its defaults, and the precedence of the dynamic
//! retry ceiling over the static one.

use crate::number::{parse_u32, parse_u32_spec};
use vstd::prelude::*;

verus! {

/// Application configuration.
#[derive(Clone, Debug)]
pub struct AppConfig {
    /// Bind address for the HTTP server.
    pub bind: String,
    /// Path to the database file.
    pub database_url: String,
    /// Directory where downloaded files are stored.
    pub output_dir: String,
    /// Maximum number of concurrent downloads.
    pub max_concurrent: usize,
    /// Maximum number of times to retry a failed download (0 = no retries).
    pub max_download_retries: u32,
    /// Path to the downloader binary.
    pub get_iplayer_path: String,
    /// Path to the ffmpeg binary.
    pub ffmpeg_path: String,
    /// Directory that the downloader uses for its programme cache.
    pub iplayer_cache_dir: String,
    /// Secret used for signing tokens.
    pub secret: String,
    /// Optional HTTP proxy to pass to the downloader.
    pub proxy: Option<String>,
    /// Initial admin username (used on first launch only).
    pub admin_username: String,
    /// Initial admin password (used on first launch only).
    pub admin_password: String,
}

pub fn default_bind() -> (s: String)
    ensures
        s@ == "0.0.0.0:3000"@,
{
    "0.0.0.0:3000".to_string()
}

pub fn default_db_url() -> (s: String)
    ensures
        s@ == "/data/tapedeck.db"@,
{
    "/data/tapedeck.db".to_string()
}

pub fn default_output_dir() -> (s: String)
    ensures
        s@ == "/downloads"@,
{
    "/downloads".to_string()
}

pub fn default_max_concurrent() -> (n: usize)
    ensures
        n == 2,
{
    2
}

pub fn default_max_download_retries() -> (n: u32)
    ensures
        n == 3,
{
    3
}

pub fn default_get_iplayer_path() -> (s: String)
    ensures
        s@ == "get_iplayer"@,
{
    "get_iplayer".to_string()
}

pub fn default_ffmpeg_path() -> (s: String)
    ensures
        s@ == "ffmpeg"@,
{
    "ffmpeg".to_string()
}

pub fn default_iplayer_cache_dir() -> (s: String)
    ensures
        s@ == "/data/iplayer-cache"@,
{
    "/data/iplayer-cache".to_string()
}

pub fn default_secret() -> (s: String)
    ensures
        s@ == "change-me-in-production"@,
{
    "change-me-in-production".to_string()
}

pub fn default_admin_user() -> (s: String)
    ensures
        s@ == "admin"@,
{
    "admin".to_string()
}

pub fn default_admin_pass() -> (s: String)
    ensures
        s@ == "changeme"@,
{
    "changeme".to_string()
}

impl AppConfig {
    /// The configuration in which every field has its default and no proxy is
    /// set.
    pub fn with_defaults() -> (c: AppConfig)
        ensures
            c.bind@ == "0.0.0.0:3000"@,
            c.database_url@ == "/data/tapedeck.db"@,
            c.output_dir@ == "/downloads"@,
            c.max_concurrent == 2,
            c.max_download_retries == 3,
            c.get_iplayer_path@ == "get_iplayer"@,
            c.ffmpeg_path@ == "ffmpeg"@,
            c.iplayer_cache_dir@ == "/data/iplayer-cache"@,
            c.secret@ == "change-me-in-production"@,
            c.proxy.is_none(),
            c.admin_username@ == "admin"@,
            c.admin_password@ == "changeme"@,
    {
        AppConfig {
            bind: default_bind(),
            database_url: default_db_url(),
            output_dir: default_output_dir(),
            max_concurrent: default_max_concurrent(),
            max_download_retries: default_max_download_retries(),
            get_iplayer_path: default_get_iplayer_path(),
            ffmpeg_path: default_ffmpeg_path(),
            iplayer_cache_dir: default_iplayer_cache_dir(),
            secret: default_secret(),
            proxy: None,
            admin_username: default_admin_user(),
            admin_password: default_admin_pass(),
        }
    }
}

/// The key of the dynamic setting that overrides the static retry ceiling.
pub fn max_retries_setting_key() -> (k: &'static str)
    ensures
        k@ == "max_download_retries"@,
{
    "max_download_retries"
}

/// The retry ceiling in force: the dynamic setting where it is present and
/// reads as a number, else the static default.
pub open spec fn effective_max_retries_spec(setting: Option<Seq<char>>, fallback: u32) -> u32 {
    match setting {
        Some(text) => match parse_u32_spec(text) {
            Some(n) => n,
            None => fallback,
        },
        None => fallback,
    }
}

/// The retry ceiling in force: the dynamic setting where it is present and
/// reads as a number, else the static default.
pub fn effective_max_retries(setting: Option<&str>, fallback: u32) -> (n: u32)
    ensures
        n == effective_max_retries_spec(
            match setting {
                Some(t) => Some(t@),
                None => None,
            },
            fallback,
        ),
{
    match setting {
        Some(text) => match parse_u32(text) {
            Some(n) => n,
            None => fallback,
        },
        None => fallback,
    }
}

} // verus!

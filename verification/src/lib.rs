//! Wallpaper rotation engine.
//!
//! The library decides, tick by tick, which image path a desktop-background
//! rotator should display next.  Two sources take turns: a local directory of
//! image files, cycled in listing order, and a remote photo service whose
//! pictures are cached on disk and refreshed when the cache grows stale.
//!
//! All input/output — listing the directory, talking to the photo service,
//! writing cache files, setting the wallpaper, sleeping — is left to the
//! embedding program.  It hands the library plain values (directory listings,
//! clock readings, download outcomes) and carries out the actions the library
//! decides on.

use vstd::prelude::*;

pub mod config;
pub mod cycle;
mod errors;
pub mod fetchers;
pub mod rotator;
pub mod text;

pub use config::{Args, CliArgs, ConfigError, ConfigTable, LocalTable, UnsplashTable};
pub use errors::WallsplashError;
pub use fetchers::{Fetch, LocalFetcher, UnsplashFetcher};
pub use rotator::{Rotator, RotatorState, TickAction};

verus! {

/// Information needed by the engine to know what and how to run.
#[derive(Debug)]
pub struct Context {
    /// Local directory path to find user wallpapers.
    pub dir: String,
    /// Remote API client token.
    pub token: String,
    /// Number of images to cache.
    pub limit: u32,
    /// Seconds to wait before displaying the next wallpaper.
    pub timeout_secs: u64,
    /// Seconds before the remote image cache goes stale.
    pub refresh_secs: u64,
}

impl Context {
    pub fn new(dir: &str, token: &str, limit: u32, timeout_secs: u64, refresh_secs: u64) -> (r:
        Context)
        ensures
            r.dir@ == dir@,
            r.token@ == token@,
            r.limit == limit,
            r.timeout_secs == timeout_secs,
            r.refresh_secs == refresh_secs,
    {
        Context {
            dir: dir.to_owned(),
            token: token.to_owned(),
            limit,
            timeout_secs,
            refresh_secs,
        }
    }
}

} // verus!

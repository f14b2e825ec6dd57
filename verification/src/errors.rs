//! Library-specific errors.

use vstd::prelude::*;

verus! {

/// What can go wrong while producing the next image path.
///
/// The first three variants are the library's own taxonomy; `Transport`
/// carries a message for a network, parse or filesystem failure that the
/// embedding program propagates as-is.
#[derive(Debug, PartialEq, Eq)]
pub enum WallsplashError {
    /// The local directory enumerated to zero regular files.
    LocalNoImage,
    /// The remote list endpoint returned a non-success HTTP status.
    UnsplashAPIFail,
    /// A refresh cycle completed but yielded zero usable cached images.
    UnsplashNoImage,
    /// A network, parse or filesystem failure, propagated as-is.
    Transport(String),
}

impl WallsplashError {
    /// A human-readable description of the error.
    pub fn description<'a>(&'a self) -> (r: &'a str)
        ensures
            r@ == match self {
                WallsplashError::LocalNoImage => "No local images found"@,
                WallsplashError::UnsplashAPIFail => "Unsplash /photos api failed"@,
                WallsplashError::UnsplashNoImage => "No images found from Unsplash"@,
                WallsplashError::Transport(msg) => msg@,
            },
    {
        match self {
            WallsplashError::LocalNoImage => "No local images found",
            WallsplashError::UnsplashAPIFail => "Unsplash /photos api failed",
            WallsplashError::UnsplashNoImage => "No images found from Unsplash",
            WallsplashError::Transport(msg) => msg.as_str(),
        }
    }
}

} // verus!

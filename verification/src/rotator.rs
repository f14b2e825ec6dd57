//! The driver's decision core: which source is due, and what to do with a
//! tick's outcome.
//!
//! The rotator owns nothing but the toggle between the two sources.  The
//! embedding program queries the source the current state names, hands the
//! outcome in, performs the returned action — display the path, or log the
//! error — and sleeps until the next tick.  The loop itself, the display
//! command and the sleeping stay outside the library.

use vstd::prelude::*;

verus! {

use crate::errors::WallsplashError;

/// Which source the next tick queries.
#[derive(Clone, Copy, Debug, PartialEq, Eq, Structural)]
pub enum RotatorState {
    /// Query the local directory source.
    UseLocal,
    /// Query the remote cached source.
    UseRemote,
}

/// The other source.
pub open spec fn toggle_spec(s: RotatorState) -> RotatorState {
    match s {
        RotatorState::UseLocal => RotatorState::UseRemote,
        RotatorState::UseRemote => RotatorState::UseLocal,
    }
}

/// What the embedding program must do with a tick's outcome.
#[derive(Debug)]
pub enum TickAction {
    /// Invoke the display command with this image path.
    Display(String),
    /// Log this error; the display command is not invoked.
    LogError(WallsplashError),
}

/// The driver's state: which source goes next.
pub struct Rotator {
    /// The source the next tick queries.
    pub state: RotatorState,
}

impl Rotator {
    /// A rotator that starts with the local source.
    pub fn new() -> (r: Rotator)
        ensures
            r.state == RotatorState::UseLocal,
    {
        Rotator { state: RotatorState::UseLocal }
    }

    /// Digest one tick's outcome: a path is displayed, an error is logged,
    /// and either way the sources swap — the toggle is unconditional.
    pub fn tick(&mut self, outcome: Result<String, WallsplashError>) -> (a: TickAction)
        ensures
            final(self).state == toggle_spec(old(self).state),
            a == match outcome {
                Ok(p) => TickAction::Display(p),
                Err(e) => TickAction::LogError(e),
            },
    {
        self.state = match self.state {
            RotatorState::UseLocal => RotatorState::UseRemote,
            RotatorState::UseRemote => RotatorState::UseLocal,
        };
        match outcome {
            Ok(p) => TickAction::Display(p),
            Err(e) => TickAction::LogError(e),
        }
    }
}

/// Two ticks later the same source is due again: the sources strictly
/// alternate, whatever the outcomes were.
pub proof fn lemma_sources_alternate(s: RotatorState)
    ensures
        toggle_spec(toggle_spec(s)) == s,
        toggle_spec(s) != s,
{
}

} // verus!

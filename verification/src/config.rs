//! The user's settings.
use vstd::prelude::*;

verus! {

/// The settings that the timer keeps between runs.
#[derive(Clone, Copy, Debug, PartialEq, Eq, Structural)]
pub struct Settings {
    /// The length of a focus session, in minutes.
    pub focus_minutes: u64,
}

impl Default for Settings {
    /// Sessions of twenty-five minutes.
    fn default() -> (settings: Settings)
        ensures
            settings.focus_minutes == 25,
    {
        Settings { focus_minutes: 25 }
    }
}

impl Settings {
    /// The settings that were read back, or the defaults where none could be read.
    pub fn or_default(loaded: Option<Settings>) -> (settings: Settings)
        ensures
            settings == (match loaded {
                Some(s) => s,
                None => Settings { focus_minutes: 25 },
            }),
    {
        match loaded {
            Some(s) => s,
            None => Settings::default(),
        }
    }
}

} // verus!

//! The settings object libobs hands to a plugin's callbacks.

use vstd::prelude::*;

verus! {

/// A libobs settings object (`obs_data_t`) handed to a callback.
///
/// The library carries it, by libobs's address of it, to the plugin's
/// hooks; the values inside are read and written through libobs.
#[derive(Debug, PartialEq, Eq, Structural)]
pub struct Settings {
    raw: usize,
}

impl Settings {
    /// libobs's address of the object.
    pub closed spec fn spec_raw(&self) -> usize {
        self.raw
    }

    /// The settings object at libobs address `raw`; a null address gives
    /// none.
    pub fn from_raw(raw: usize) -> (r: Option<Settings>)
        ensures
            r is None <==> raw == 0,
            r matches Some(s) ==> s.spec_raw() == raw,
    {
        if raw == 0 {
            None
        } else {
            Some(Settings { raw })
        }
    }

    /// libobs's address of the object.
    pub fn as_raw(&self) -> (r: usize)
        ensures
            r == self.spec_raw(),
    {
        self.raw
    }
}

} // verus!

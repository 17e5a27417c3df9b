//! Media playback states.

use vstd::prelude::*;

use crate::native::UnknownNativeValue;

verus! {

/// Playback state of a media source, mirroring libobs's `obs_media_state`.
#[derive(Debug, Clone, Copy, PartialEq, Eq, Structural)]
pub enum MediaState {
    /// nothing loaded (libobs `OBS_MEDIA_STATE_NONE`)
    NoMedia,
    Playing,
    Opening,
    Buffering,
    Paused,
    Stopped,
    Ended,
    Error,
}

impl MediaState {
    /// The libobs enumerant of this value.
    pub open spec fn spec_raw(self) -> u32 {
        match self {
            MediaState::NoMedia => 0,
            MediaState::Playing => 1,
            MediaState::Opening => 2,
            MediaState::Buffering => 3,
            MediaState::Paused => 4,
            MediaState::Stopped => 5,
            MediaState::Ended => 6,
            MediaState::Error => 7,
        }
    }

    /// The value whose enumerant is `raw`, if there is one.
    pub open spec fn spec_from_raw(raw: u32) -> Option<MediaState> {
        if raw == 0 {
            Some(MediaState::NoMedia)
        } else if raw == 1 {
            Some(MediaState::Playing)
        } else if raw == 2 {
            Some(MediaState::Opening)
        } else if raw == 3 {
            Some(MediaState::Buffering)
        } else if raw == 4 {
            Some(MediaState::Paused)
        } else if raw == 5 {
            Some(MediaState::Stopped)
        } else if raw == 6 {
            Some(MediaState::Ended)
        } else if raw == 7 {
            Some(MediaState::Error)
        } else {
            None
        }
    }

    /// Converts to the underlying libobs enumerant.
    pub fn as_raw(self) -> (r: u32)
        ensures
            r == self.spec_raw(),
    {
        match self {
            MediaState::NoMedia => 0,
            MediaState::Playing => 1,
            MediaState::Opening => 2,
            MediaState::Buffering => 3,
            MediaState::Paused => 4,
            MediaState::Stopped => 5,
            MediaState::Ended => 6,
            MediaState::Error => 7,
        }
    }

    /// Maps a libobs enumerant to a value; unknown enumerants are returned
    /// in the error.
    pub fn from_raw(raw: u32) -> (r: Result<MediaState, UnknownNativeValue>)
        ensures
            match r {
                Ok(v) => Self::spec_from_raw(raw) == Some(v),
                Err(e) => Self::spec_from_raw(raw) is None && e.raw == raw,
            },
    {
        match raw {
            0 => Ok(MediaState::NoMedia),
            1 => Ok(MediaState::Playing),
            2 => Ok(MediaState::Opening),
            3 => Ok(MediaState::Buffering),
            4 => Ok(MediaState::Paused),
            5 => Ok(MediaState::Stopped),
            6 => Ok(MediaState::Ended),
            7 => Ok(MediaState::Error),
            _ => Err(UnknownNativeValue { raw }),
        }
    }
}

/// Converting a value to its enumerant and back gives the same value, and
/// an enumerant that names a value is that value's enumerant.
pub proof fn lemma_media_state_raw_roundtrip(v: MediaState, raw: u32)
    ensures
        MediaState::spec_from_raw(v.spec_raw()) == Some(v),
        MediaState::spec_from_raw(raw) matches Some(w) ==> w.spec_raw() == raw,
{
}

/// Each value's libobs enumerant, as libobs numbers them, and the value each of those
/// enumerants stands for.
pub proof fn lemma_media_state_numbering()
    ensures
        MediaState::NoMedia.spec_raw() == 0,
        MediaState::spec_from_raw(0) == Some(MediaState::NoMedia),
        MediaState::Playing.spec_raw() == 1,
        MediaState::spec_from_raw(1) == Some(MediaState::Playing),
        MediaState::Opening.spec_raw() == 2,
        MediaState::spec_from_raw(2) == Some(MediaState::Opening),
        MediaState::Buffering.spec_raw() == 3,
        MediaState::spec_from_raw(3) == Some(MediaState::Buffering),
        MediaState::Paused.spec_raw() == 4,
        MediaState::spec_from_raw(4) == Some(MediaState::Paused),
        MediaState::Stopped.spec_raw() == 5,
        MediaState::spec_from_raw(5) == Some(MediaState::Stopped),
        MediaState::Ended.spec_raw() == 6,
        MediaState::spec_from_raw(6) == Some(MediaState::Ended),
        MediaState::Error.spec_raw() == 7,
        MediaState::spec_from_raw(7) == Some(MediaState::Error),
{
}

} // verus!

//! Frontend events and the decisions taken when OBS Studio calls back into
//! a plugin: which event an event callback receives, and in which
//! direction a save callback runs.

use vstd::prelude::*;

use crate::native::UnknownNativeValue;

verus! {

/// High-level UI / engine events emitted by OBS Studio, mirroring
/// `obs_frontend_event`.
///
/// New variants are added across OBS major versions; unknown enumerants
/// are surfaced through [`from_raw`](Self::from_raw)'s error.
#[derive(Debug, Clone, Copy, PartialEq, Eq, Structural)]
pub enum Event {
    StreamingStarting,
    StreamingStarted,
    StreamingStopping,
    StreamingStopped,
    RecordingStarting,
    RecordingStarted,
    RecordingStopping,
    RecordingStopped,
    SceneChanged,
    SceneListChanged,
    TransitionChanged,
    TransitionStopped,
    TransitionListChanged,
    SceneCollectionChanged,
    SceneCollectionListChanged,
    ProfileChanged,
    ProfileListChanged,
    Exit,
    ReplayBufferStarting,
    ReplayBufferStarted,
    ReplayBufferStopping,
    ReplayBufferStopped,
    StudioModeEnabled,
    StudioModeDisabled,
    PreviewSceneChanged,
    SceneCollectionCleanup,
    FinishedLoading,
    RecordingPaused,
    RecordingUnpaused,
    TransitionDurationChanged,
    ReplayBufferSaved,
    VirtualcamStarted,
    VirtualcamStopped,
    TbarValueChanged,
    SceneCollectionChanging,
    ProfileChanging,
    ScriptingShutdown,
    ProfileRenamed,
    SceneCollectionRenamed,
    ThemeChanged,
    ScreenshotTaken,
}

impl Event {
    /// The libobs enumerant of this value.
    pub open spec fn spec_raw(self) -> u32 {
        match self {
            Event::StreamingStarting => 0,
            Event::StreamingStarted => 1,
            Event::StreamingStopping => 2,
            Event::StreamingStopped => 3,
            Event::RecordingStarting => 4,
            Event::RecordingStarted => 5,
            Event::RecordingStopping => 6,
            Event::RecordingStopped => 7,
            Event::SceneChanged => 8,
            Event::SceneListChanged => 9,
            Event::TransitionChanged => 10,
            Event::TransitionStopped => 11,
            Event::TransitionListChanged => 12,
            Event::SceneCollectionChanged => 13,
            Event::SceneCollectionListChanged => 14,
            Event::ProfileChanged => 15,
            Event::ProfileListChanged => 16,
            Event::Exit => 17,
            Event::ReplayBufferStarting => 18,
            Event::ReplayBufferStarted => 19,
            Event::ReplayBufferStopping => 20,
            Event::ReplayBufferStopped => 21,
            Event::StudioModeEnabled => 22,
            Event::StudioModeDisabled => 23,
            Event::PreviewSceneChanged => 24,
            Event::SceneCollectionCleanup => 25,
            Event::FinishedLoading => 26,
            Event::RecordingPaused => 27,
            Event::RecordingUnpaused => 28,
            Event::TransitionDurationChanged => 29,
            Event::ReplayBufferSaved => 30,
            Event::VirtualcamStarted => 31,
            Event::VirtualcamStopped => 32,
            Event::TbarValueChanged => 33,
            Event::SceneCollectionChanging => 34,
            Event::ProfileChanging => 35,
            Event::ScriptingShutdown => 36,
            Event::ProfileRenamed => 37,
            Event::SceneCollectionRenamed => 38,
            Event::ThemeChanged => 39,
            Event::ScreenshotTaken => 40,
        }
    }

    /// The value whose enumerant is `raw`, if there is one.
    pub open spec fn spec_from_raw(raw: u32) -> Option<Event> {
        if raw == 0 {
            Some(Event::StreamingStarting)
        } else if raw == 1 {
            Some(Event::StreamingStarted)
        } else if raw == 2 {
            Some(Event::StreamingStopping)
        } else if raw == 3 {
            Some(Event::StreamingStopped)
        } else if raw == 4 {
            Some(Event::RecordingStarting)
        } else if raw == 5 {
            Some(Event::RecordingStarted)
        } else if raw == 6 {
            Some(Event::RecordingStopping)
        } else if raw == 7 {
            Some(Event::RecordingStopped)
        } else if raw == 8 {
            Some(Event::SceneChanged)
        } else if raw == 9 {
            Some(Event::SceneListChanged)
        } else if raw == 10 {
            Some(Event::TransitionChanged)
        } else if raw == 11 {
            Some(Event::TransitionStopped)
        } else if raw == 12 {
            Some(Event::TransitionListChanged)
        } else if raw == 13 {
            Some(Event::SceneCollectionChanged)
        } else if raw == 14 {
            Some(Event::SceneCollectionListChanged)
        } else if raw == 15 {
            Some(Event::ProfileChanged)
        } else if raw == 16 {
            Some(Event::ProfileListChanged)
        } else if raw == 17 {
            Some(Event::Exit)
        } else if raw == 18 {
            Some(Event::ReplayBufferStarting)
        } else if raw == 19 {
            Some(Event::ReplayBufferStarted)
        } else if raw == 20 {
            Some(Event::ReplayBufferStopping)
        } else if raw == 21 {
            Some(Event::ReplayBufferStopped)
        } else if raw == 22 {
            Some(Event::StudioModeEnabled)
        } else if raw == 23 {
            Some(Event::StudioModeDisabled)
        } else if raw == 24 {
            Some(Event::PreviewSceneChanged)
        } else if raw == 25 {
            Some(Event::SceneCollectionCleanup)
        } else if raw == 26 {
            Some(Event::FinishedLoading)
        } else if raw == 27 {
            Some(Event::RecordingPaused)
        } else if raw == 28 {
            Some(Event::RecordingUnpaused)
        } else if raw == 29 {
            Some(Event::TransitionDurationChanged)
        } else if raw == 30 {
            Some(Event::ReplayBufferSaved)
        } else if raw == 31 {
            Some(Event::VirtualcamStarted)
        } else if raw == 32 {
            Some(Event::VirtualcamStopped)
        } else if raw == 33 {
            Some(Event::TbarValueChanged)
        } else if raw == 34 {
            Some(Event::SceneCollectionChanging)
        } else if raw == 35 {
            Some(Event::ProfileChanging)
        } else if raw == 36 {
            Some(Event::ScriptingShutdown)
        } else if raw == 37 {
            Some(Event::ProfileRenamed)
        } else if raw == 38 {
            Some(Event::SceneCollectionRenamed)
        } else if raw == 39 {
            Some(Event::ThemeChanged)
        } else if raw == 40 {
            Some(Event::ScreenshotTaken)
        } else {
            None
        }
    }

    /// Converts to the underlying libobs enumerant.
    pub fn as_raw(self) -> (r: u32)
        ensures
            r == self.spec_raw(),
    {
        match self {
            Event::StreamingStarting => 0,
            Event::StreamingStarted => 1,
            Event::StreamingStopping => 2,
            Event::StreamingStopped => 3,
            Event::RecordingStarting => 4,
            Event::RecordingStarted => 5,
            Event::RecordingStopping => 6,
            Event::RecordingStopped => 7,
            Event::SceneChanged => 8,
            Event::SceneListChanged => 9,
            Event::TransitionChanged => 10,
            Event::TransitionStopped => 11,
            Event::TransitionListChanged => 12,
            Event::SceneCollectionChanged => 13,
            Event::SceneCollectionListChanged => 14,
            Event::ProfileChanged => 15,
            Event::ProfileListChanged => 16,
            Event::Exit => 17,
            Event::ReplayBufferStarting => 18,
            Event::ReplayBufferStarted => 19,
            Event::ReplayBufferStopping => 20,
            Event::ReplayBufferStopped => 21,
            Event::StudioModeEnabled => 22,
            Event::StudioModeDisabled => 23,
            Event::PreviewSceneChanged => 24,
            Event::SceneCollectionCleanup => 25,
            Event::FinishedLoading => 26,
            Event::RecordingPaused => 27,
            Event::RecordingUnpaused => 28,
            Event::TransitionDurationChanged => 29,
            Event::ReplayBufferSaved => 30,
            Event::VirtualcamStarted => 31,
            Event::VirtualcamStopped => 32,
            Event::TbarValueChanged => 33,
            Event::SceneCollectionChanging => 34,
            Event::ProfileChanging => 35,
            Event::ScriptingShutdown => 36,
            Event::ProfileRenamed => 37,
            Event::SceneCollectionRenamed => 38,
            Event::ThemeChanged => 39,
            Event::ScreenshotTaken => 40,
        }
    }

    /// Maps a libobs enumerant to a value; unknown enumerants are returned
    /// in the error.
    pub fn from_raw(raw: u32) -> (r: Result<Event, UnknownNativeValue>)
        ensures
            match r {
                Ok(v) => Self::spec_from_raw(raw) == Some(v),
                Err(e) => Self::spec_from_raw(raw) is None && e.raw == raw,
            },
    {
        match raw {
            0 => Ok(Event::StreamingStarting),
            1 => Ok(Event::StreamingStarted),
            2 => Ok(Event::StreamingStopping),
            3 => Ok(Event::StreamingStopped),
            4 => Ok(Event::RecordingStarting),
            5 => Ok(Event::RecordingStarted),
            6 => Ok(Event::RecordingStopping),
            7 => Ok(Event::RecordingStopped),
            8 => Ok(Event::SceneChanged),
            9 => Ok(Event::SceneListChanged),
            10 => Ok(Event::TransitionChanged),
            11 => Ok(Event::TransitionStopped),
            12 => Ok(Event::TransitionListChanged),
            13 => Ok(Event::SceneCollectionChanged),
            14 => Ok(Event::SceneCollectionListChanged),
            15 => Ok(Event::ProfileChanged),
            16 => Ok(Event::ProfileListChanged),
            17 => Ok(Event::Exit),
            18 => Ok(Event::ReplayBufferStarting),
            19 => Ok(Event::ReplayBufferStarted),
            20 => Ok(Event::ReplayBufferStopping),
            21 => Ok(Event::ReplayBufferStopped),
            22 => Ok(Event::StudioModeEnabled),
            23 => Ok(Event::StudioModeDisabled),
            24 => Ok(Event::PreviewSceneChanged),
            25 => Ok(Event::SceneCollectionCleanup),
            26 => Ok(Event::FinishedLoading),
            27 => Ok(Event::RecordingPaused),
            28 => Ok(Event::RecordingUnpaused),
            29 => Ok(Event::TransitionDurationChanged),
            30 => Ok(Event::ReplayBufferSaved),
            31 => Ok(Event::VirtualcamStarted),
            32 => Ok(Event::VirtualcamStopped),
            33 => Ok(Event::TbarValueChanged),
            34 => Ok(Event::SceneCollectionChanging),
            35 => Ok(Event::ProfileChanging),
            36 => Ok(Event::ScriptingShutdown),
            37 => Ok(Event::ProfileRenamed),
            38 => Ok(Event::SceneCollectionRenamed),
            39 => Ok(Event::ThemeChanged),
            40 => Ok(Event::ScreenshotTaken),
            _ => Err(UnknownNativeValue { raw }),
        }
    }
}

/// Converting a value to its enumerant and back gives the same value, and
/// an enumerant that names a value is that value's enumerant.
pub proof fn lemma_event_raw_roundtrip(v: Event, raw: u32)
    ensures
        Event::spec_from_raw(v.spec_raw()) == Some(v),
        Event::spec_from_raw(raw) matches Some(w) ==> w.spec_raw() == raw,
{
}

/// Which way a save callback runs.
#[derive(Debug, Clone, Copy, PartialEq, Eq, Structural)]
pub enum SaveDirection {
    /// OBS is asking the callback to read settings out of the blob.
    Loading,
    /// OBS is asking the callback to write settings into the blob.
    Saving,
}

impl SaveDirection {
    /// The direction OBS's `saving` flag stands for.
    pub open spec fn spec_from_saving(saving: bool) -> SaveDirection {
        if saving {
            SaveDirection::Saving
        } else {
            SaveDirection::Loading
        }
    }

    /// The direction OBS's `saving` flag stands for.
    pub fn from_saving(saving: bool) -> (r: Self)
        ensures
            r == Self::spec_from_saving(saving),
    {
        if saving {
            SaveDirection::Saving
        } else {
            SaveDirection::Loading
        }
    }
}

/// What OBS's call of a save callback comes to: the callback runs only
/// when both its registration and the settings blob are present, and then
/// in the direction of the `saving` flag.
pub fn save_callback_direction(callback_present: bool, data_present: bool, saving: bool) -> (r:
    Option<SaveDirection>)
    ensures
        r == (if callback_present && data_present {
            Some(SaveDirection::spec_from_saving(saving))
        } else {
            None
        }),
{
    if !callback_present || !data_present {
        return None;
    }
    Some(SaveDirection::from_saving(saving))
}

/// What OBS's call of an event callback comes to: the callback runs only
/// when its registration is present and the enumerant names a known
/// event; unknown events (from a newer OBS) are silently ignored.
pub fn event_callback_target(callback_present: bool, raw: u32) -> (r: Option<Event>)
    ensures
        r == (if callback_present {
            Event::spec_from_raw(raw)
        } else {
            None
        }),
{
    if !callback_present {
        return None;
    }
    match Event::from_raw(raw) {
        Ok(ev) => Some(ev),
        Err(_) => None,
    }
}

/// Each value's libobs enumerant, as libobs numbers them, and the value each of those
/// enumerants stands for.
pub proof fn lemma_event_numbering()
    ensures
        Event::StreamingStarting.spec_raw() == 0,
        Event::spec_from_raw(0) == Some(Event::StreamingStarting),
        Event::StreamingStarted.spec_raw() == 1,
        Event::spec_from_raw(1) == Some(Event::StreamingStarted),
        Event::StreamingStopping.spec_raw() == 2,
        Event::spec_from_raw(2) == Some(Event::StreamingStopping),
        Event::StreamingStopped.spec_raw() == 3,
        Event::spec_from_raw(3) == Some(Event::StreamingStopped),
        Event::RecordingStarting.spec_raw() == 4,
        Event::spec_from_raw(4) == Some(Event::RecordingStarting),
        Event::RecordingStarted.spec_raw() == 5,
        Event::spec_from_raw(5) == Some(Event::RecordingStarted),
        Event::RecordingStopping.spec_raw() == 6,
        Event::spec_from_raw(6) == Some(Event::RecordingStopping),
        Event::RecordingStopped.spec_raw() == 7,
        Event::spec_from_raw(7) == Some(Event::RecordingStopped),
        Event::SceneChanged.spec_raw() == 8,
        Event::spec_from_raw(8) == Some(Event::SceneChanged),
        Event::SceneListChanged.spec_raw() == 9,
        Event::spec_from_raw(9) == Some(Event::SceneListChanged),
        Event::TransitionChanged.spec_raw() == 10,
        Event::spec_from_raw(10) == Some(Event::TransitionChanged),
        Event::TransitionStopped.spec_raw() == 11,
        Event::spec_from_raw(11) == Some(Event::TransitionStopped),
        Event::TransitionListChanged.spec_raw() == 12,
        Event::spec_from_raw(12) == Some(Event::TransitionListChanged),
        Event::SceneCollectionChanged.spec_raw() == 13,
        Event::spec_from_raw(13) == Some(Event::SceneCollectionChanged),
        Event::SceneCollectionListChanged.spec_raw() == 14,
        Event::spec_from_raw(14) == Some(Event::SceneCollectionListChanged),
        Event::ProfileChanged.spec_raw() == 15,
        Event::spec_from_raw(15) == Some(Event::ProfileChanged),
        Event::ProfileListChanged.spec_raw() == 16,
        Event::spec_from_raw(16) == Some(Event::ProfileListChanged),
        Event::Exit.spec_raw() == 17,
        Event::spec_from_raw(17) == Some(Event::Exit),
        Event::ReplayBufferStarting.spec_raw() == 18,
        Event::spec_from_raw(18) == Some(Event::ReplayBufferStarting),
        Event::ReplayBufferStarted.spec_raw() == 19,
        Event::spec_from_raw(19) == Some(Event::ReplayBufferStarted),
        Event::ReplayBufferStopping.spec_raw() == 20,
        Event::spec_from_raw(20) == Some(Event::ReplayBufferStopping),
        Event::ReplayBufferStopped.spec_raw() == 21,
        Event::spec_from_raw(21) == Some(Event::ReplayBufferStopped),
        Event::StudioModeEnabled.spec_raw() == 22,
        Event::spec_from_raw(22) == Some(Event::StudioModeEnabled),
        Event::StudioModeDisabled.spec_raw() == 23,
        Event::spec_from_raw(23) == Some(Event::StudioModeDisabled),
        Event::PreviewSceneChanged.spec_raw() == 24,
        Event::spec_from_raw(24) == Some(Event::PreviewSceneChanged),
        Event::SceneCollectionCleanup.spec_raw() == 25,
        Event::spec_from_raw(25) == Some(Event::SceneCollectionCleanup),
        Event::FinishedLoading.spec_raw() == 26,
        Event::spec_from_raw(26) == Some(Event::FinishedLoading),
        Event::RecordingPaused.spec_raw() == 27,
        Event::spec_from_raw(27) == Some(Event::RecordingPaused),
        Event::RecordingUnpaused.spec_raw() == 28,
        Event::spec_from_raw(28) == Some(Event::RecordingUnpaused),
        Event::TransitionDurationChanged.spec_raw() == 29,
        Event::spec_from_raw(29) == Some(Event::TransitionDurationChanged),
        Event::ReplayBufferSaved.spec_raw() == 30,
        Event::spec_from_raw(30) == Some(Event::ReplayBufferSaved),
        Event::VirtualcamStarted.spec_raw() == 31,
        Event::spec_from_raw(31) == Some(Event::VirtualcamStarted),
        Event::VirtualcamStopped.spec_raw() == 32,
        Event::spec_from_raw(32) == Some(Event::VirtualcamStopped),
        Event::TbarValueChanged.spec_raw() == 33,
        Event::spec_from_raw(33) == Some(Event::TbarValueChanged),
        Event::SceneCollectionChanging.spec_raw() == 34,
        Event::spec_from_raw(34) == Some(Event::SceneCollectionChanging),
        Event::ProfileChanging.spec_raw() == 35,
        Event::spec_from_raw(35) == Some(Event::ProfileChanging),
        Event::ScriptingShutdown.spec_raw() == 36,
        Event::spec_from_raw(36) == Some(Event::ScriptingShutdown),
        Event::ProfileRenamed.spec_raw() == 37,
        Event::spec_from_raw(37) == Some(Event::ProfileRenamed),
        Event::SceneCollectionRenamed.spec_raw() == 38,
        Event::spec_from_raw(38) == Some(Event::SceneCollectionRenamed),
        Event::ThemeChanged.spec_raw() == 39,
        Event::spec_from_raw(39) == Some(Event::ThemeChanged),
        Event::ScreenshotTaken.spec_raw() == 40,
        Event::spec_from_raw(40) == Some(Event::ScreenshotTaken),
{
}

/// OBS's `saving` flag set means the callback writes settings out;
/// cleared, it reads them back in.
pub proof fn lemma_save_direction()
    ensures
        SaveDirection::spec_from_saving(true) == SaveDirection::Saving,
        SaveDirection::spec_from_saving(false) == SaveDirection::Loading,
{
}

} // verus!

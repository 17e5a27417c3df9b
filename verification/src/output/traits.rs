//! The traits an output implements; each optional one is switched on with
//! the matching `enable_*` method of
//! [`OutputInfoBuilder`](super::OutputInfoBuilder).

use vstd::prelude::*;

use crate::encoder::context::EncodedPacketView;
use crate::media::audio::AudioDataOutputContext;
use crate::media::video::VideoDataOutputContext;
use crate::properties::Properties;
use crate::settings::Settings;
use crate::source::traits::CreateError;
use super::context::CreatableOutputContext;
use super::OutputRef;

verus! {

/// The mandatory trait every output implements: its identity, its
/// constructor and its start/stop hooks.
pub trait Outputable: Sized {
    /// Returns the globally-unique identifier for this output type.
    fn get_id() -> &'static str;

    /// Constructs a new output instance, each time OBS creates an output of
    /// this type; hotkeys registered on `context` act on the instance.
    fn create(context: &mut CreatableOutputContext<Self>, output: OutputRef) -> Result<
        Self,
        CreateError,
    >;

    /// Starts delivery; returns `false` if the output cannot start. The
    /// provided implementation always starts and leaves the output as it is.
    fn start(&mut self) -> (r: bool)
        default_ensures
            r,
            *final(self) == *old(self),
    {
        true
    }

    /// Stops delivery at timestamp `ts`.
    fn stop(&mut self, ts: u64) {
    }
}

/// Provides a user-visible display name for the output.
pub trait GetNameOutput {
    /// Returns the display name shown in OBS UIs.
    fn get_name() -> &'static str;
}

/// Receives raw video frames.
pub trait RawVideoOutput: Sized {
    /// Called for each raw video frame.
    fn raw_video(&mut self, frame: &mut VideoDataOutputContext<'_>);
}

/// Receives raw audio from the mixer.
pub trait RawAudioOutput: Sized {
    /// Called for each raw audio buffer.
    fn raw_audio(&mut self, frame: &mut AudioDataOutputContext<'_>);
}

/// Receives raw audio per mixer track.
pub trait RawAudio2Output: Sized {
    /// Called for each raw audio buffer of track `idx`.
    fn raw_audio2(&mut self, idx: usize, frame: &mut AudioDataOutputContext<'_>);
}

/// Receives encoded packets.
pub trait EncodedPacketOutput: Sized {
    /// Called for each encoded packet.
    fn encoded_packet(&mut self, packet: &EncodedPacketView<'_>);
}

/// Builds the user-facing [`Properties`] panel for the output.
pub trait GetPropertiesOutput: Sized {
    /// Returns the property tree OBS will render in the output settings.
    fn get_properties(&self) -> Properties;
}

/// Reports the total number of bytes delivered.
pub trait GetTotalBytesOutput: Sized {
    /// Returns the total number of bytes delivered.
    fn get_total_bytes(&self) -> u64;
}

/// Reports the number of dropped frames.
pub trait GetDroppedFramesOutput: Sized {
    /// Returns the number of dropped frames.
    fn get_dropped_frames(&self) -> i32;
}

/// Reports how long connecting took.
pub trait GetConnectTimeMsOutput: Sized {
    /// Returns the connect time, in milliseconds.
    fn get_connect_time_ms(&self) -> i32;
}

/// Applies a new settings object to an output instance.
pub trait UpdateOutput: Sized {
    /// Applies updated settings.
    fn update(&mut self, settings: &mut Settings);
}

/// Populates the default settings written into a freshly-created output.
pub trait GetDefaultsOutput {
    /// Writes default values into `settings`.
    fn get_defaults(settings: &mut Settings);
}

} // verus!

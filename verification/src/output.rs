//! Building blocks for authoring custom OBS outputs: the registration
//! record built from the callbacks an output implements, with the
//! `OBS_OUTPUT_*` flags derived from them.

pub mod context;
pub mod traits;

use std::marker::PhantomData;

use vstd::prelude::*;

use crate::hotkey::HotkeyRegistration;
use crate::settings::Settings;
use crate::source::traits::CreateError;
use self::context::CreatableOutputContext;

use self::traits::{
    EncodedPacketOutput, GetConnectTimeMsOutput, GetDefaultsOutput, GetDroppedFramesOutput,
    GetNameOutput, GetPropertiesOutput, GetTotalBytesOutput, Outputable, RawAudio2Output,
    RawAudioOutput, RawVideoOutput, UpdateOutput,
};

verus! {

/// A handle to a live OBS output (libobs `obs_output_t`), by libobs's address of it.
#[derive(Debug, PartialEq, Eq, Structural)]
pub struct OutputRef {
    raw: usize,
}

impl OutputRef {
    /// libobs's address of the object.
    pub closed spec fn spec_raw(&self) -> usize {
        self.raw
    }

    /// The handle for libobs address `raw`; a null address gives none.
    pub fn from_raw(raw: usize) -> (r: Option<OutputRef>)
        ensures
            r is None <==> raw == 0,
            r matches Some(h) ==> h.spec_raw() == raw,
    {
        if raw == 0 {
            None
        } else {
            Some(OutputRef { raw })
        }
    }

    /// libobs's address of the object.
    pub fn as_raw(&self) -> (r: usize)
        ensures
            r == self.spec_raw(),
    {
        self.raw
    }
}


/// libobs's `OBS_OUTPUT_VIDEO`.
pub const OBS_OUTPUT_VIDEO: u32 = 1;
/// libobs's `OBS_OUTPUT_AUDIO`.
pub const OBS_OUTPUT_AUDIO: u32 = 2;
/// libobs's `OBS_OUTPUT_ENCODED`.
pub const OBS_OUTPUT_ENCODED: u32 = 4;
/// libobs's `OBS_OUTPUT_MULTI_TRACK`.
pub const OBS_OUTPUT_MULTI_TRACK: u32 = 16;

/// Which optional callbacks an output registration wires up.
#[derive(Debug, Clone, Copy, PartialEq, Eq, Structural)]
pub struct OutputCallbacks {
    pub get_name: bool,
    pub raw_video: bool,
    pub raw_audio: bool,
    pub raw_audio2: bool,
    pub encoded_packet: bool,
    pub update: bool,
    pub get_defaults: bool,
    pub get_properties: bool,
    pub get_total_bytes: bool,
    pub get_dropped_frames: bool,
    pub get_congestion: bool,
    pub get_connect_time_ms: bool,
}

impl OutputCallbacks {
    /// No optional callback.
    pub open spec fn spec_none() -> Self {
        OutputCallbacks {
            get_name: false,
            raw_video: false,
            raw_audio: false,
            raw_audio2: false,
            encoded_packet: false,
            update: false,
            get_defaults: false,
            get_properties: false,
            get_total_bytes: false,
            get_dropped_frames: false,
            get_congestion: false,
            get_connect_time_ms: false,
        }
    }

    /// No optional callback.
    pub fn none() -> (r: Self)
        ensures
            r == Self::spec_none(),
    {
        OutputCallbacks {
            get_name: false,
            raw_video: false,
            raw_audio: false,
            raw_audio2: false,
            encoded_packet: false,
            update: false,
            get_defaults: false,
            get_properties: false,
            get_total_bytes: false,
            get_dropped_frames: false,
            get_congestion: false,
            get_connect_time_ms: false,
        }
    }
}

/// The `OBS_OUTPUT_*` flags [`OutputInfoBuilder::build`] derives from the
/// enabled callbacks: encoded for encoded packets, video for raw video,
/// audio for raw audio on one or many tracks, and multi-track for per-track
/// raw audio.
pub open spec fn derived_output_flags(c: OutputCallbacks) -> u32 {
    (if c.encoded_packet {
        OBS_OUTPUT_ENCODED
    } else {
        0u32
    }) | (if c.raw_video {
        OBS_OUTPUT_VIDEO
    } else {
        0u32
    }) | (if c.raw_audio || c.raw_audio2 {
        OBS_OUTPUT_AUDIO
    } else {
        0u32
    }) | (if c.raw_audio2 {
        OBS_OUTPUT_MULTI_TRACK
    } else {
        0u32
    })
}

/// A fully-configured output registration, ready to be handed to OBS.
///
/// Produced by [`OutputInfoBuilder::build`].
#[derive(Debug, Clone, Copy)]
pub struct OutputInfo {
    /// The output's identifier.
    pub id: &'static str,
    /// libobs's `OBS_OUTPUT_*` flags.
    pub flags: u32,
    /// The optional callbacks it wires up.
    pub callbacks: OutputCallbacks,
}

/// Builder that wires up the OBS callbacks for a custom output `D`.
///
/// Call the matching `enable_*` method for each optional trait implemented
/// on `D`; each is bounded on that trait. Finalize with
/// [`build`](Self::build).
pub struct OutputInfoBuilder<D: Outputable> {
    __data: PhantomData<D>,
    info: OutputInfo,
}

impl<D: Outputable> OutputInfoBuilder<D> {
    /// The flags set so far (before those derived from callbacks).
    pub closed spec fn spec_flags(&self) -> u32 {
        self.info.flags
    }

    /// The callbacks enabled so far.
    pub closed spec fn spec_callbacks(&self) -> OutputCallbacks {
        self.info.callbacks
    }

    /// The identifier the registration carries.
    pub closed spec fn spec_id(&self) -> &'static str {
        self.info.id
    }

    /// A builder for `D` with no flags and no optional callback.
    pub fn new() -> (r: Self)
        ensures
            r.spec_flags() == 0,
            r.spec_callbacks() == OutputCallbacks::spec_none(),
    {
        OutputInfoBuilder {
            __data: PhantomData,
            info: OutputInfo { id: D::get_id(), flags: 0, callbacks: OutputCallbacks::none() },
        }
    }

    /// Finalizes the builder into an [`OutputInfo`]; the flags derived
    /// from the enabled callbacks are added to those set so far.
    pub fn build(self) -> (r: OutputInfo)
        ensures
            r.flags == self.spec_flags() | derived_output_flags(self.spec_callbacks()),
            r.callbacks == self.spec_callbacks(),
            r.id == self.spec_id(),
    {
        let c = self.info.callbacks;
        let encoded: u32 = if c.encoded_packet {
            OBS_OUTPUT_ENCODED
        } else {
            0
        };
        let video: u32 = if c.raw_video {
            OBS_OUTPUT_VIDEO
        } else {
            0
        };
        let audio: u32 = if c.raw_audio || c.raw_audio2 {
            OBS_OUTPUT_AUDIO
        } else {
            0
        };
        let multi: u32 = if c.raw_audio2 {
            OBS_OUTPUT_MULTI_TRACK
        } else {
            0
        };
        OutputInfo { flags: self.info.flags | (encoded | video | audio | multi), ..self.info }
    }
}

impl<D: Outputable + GetNameOutput> OutputInfoBuilder<D> {
    /// Enables the `get_name` callback.
    pub fn enable_get_name(self) -> (r: Self)
        ensures
            r.spec_callbacks() == (OutputCallbacks { get_name: true, ..self.spec_callbacks() }),
            r.spec_flags() == self.spec_flags(),
            r.spec_id() == self.spec_id(),
    {
        let callbacks = OutputCallbacks { get_name: true, ..self.info.callbacks };
        OutputInfoBuilder { __data: PhantomData, info: OutputInfo { callbacks, ..self.info } }
    }
}

impl<D: Outputable + UpdateOutput> OutputInfoBuilder<D> {
    /// Enables the `update` callback.
    pub fn enable_update(self) -> (r: Self)
        ensures
            r.spec_callbacks() == (OutputCallbacks { update: true, ..self.spec_callbacks() }),
            r.spec_flags() == self.spec_flags(),
            r.spec_id() == self.spec_id(),
    {
        let callbacks = OutputCallbacks { update: true, ..self.info.callbacks };
        OutputInfoBuilder { __data: PhantomData, info: OutputInfo { callbacks, ..self.info } }
    }
}

impl<D: Outputable + GetDefaultsOutput> OutputInfoBuilder<D> {
    /// Enables the `get_defaults` callback.
    pub fn enable_get_defaults(self) -> (r: Self)
        ensures
            r.spec_callbacks() == (OutputCallbacks { get_defaults: true, ..self.spec_callbacks() }),
            r.spec_flags() == self.spec_flags(),
            r.spec_id() == self.spec_id(),
    {
        let callbacks = OutputCallbacks { get_defaults: true, ..self.info.callbacks };
        OutputInfoBuilder { __data: PhantomData, info: OutputInfo { callbacks, ..self.info } }
    }
}

impl<D: Outputable + RawVideoOutput> OutputInfoBuilder<D> {
    /// Enables the `raw_video` callback.
    pub fn enable_raw_video(self) -> (r: Self)
        ensures
            r.spec_callbacks() == (OutputCallbacks { raw_video: true, ..self.spec_callbacks() }),
            r.spec_flags() == self.spec_flags(),
            r.spec_id() == self.spec_id(),
    {
        let callbacks = OutputCallbacks { raw_video: true, ..self.info.callbacks };
        OutputInfoBuilder { __data: PhantomData, info: OutputInfo { callbacks, ..self.info } }
    }
}

impl<D: Outputable + RawAudioOutput> OutputInfoBuilder<D> {
    /// Enables the `raw_audio` callback.
    pub fn enable_raw_audio(self) -> (r: Self)
        ensures
            r.spec_callbacks() == (OutputCallbacks { raw_audio: true, ..self.spec_callbacks() }),
            r.spec_flags() == self.spec_flags(),
            r.spec_id() == self.spec_id(),
    {
        let callbacks = OutputCallbacks { raw_audio: true, ..self.info.callbacks };
        OutputInfoBuilder { __data: PhantomData, info: OutputInfo { callbacks, ..self.info } }
    }
}

impl<D: Outputable + RawAudio2Output> OutputInfoBuilder<D> {
    /// Enables the `raw_audio2` callback.
    pub fn enable_raw_audio2(self) -> (r: Self)
        ensures
            r.spec_callbacks() == (OutputCallbacks { raw_audio2: true, ..self.spec_callbacks() }),
            r.spec_flags() == self.spec_flags(),
            r.spec_id() == self.spec_id(),
    {
        let callbacks = OutputCallbacks { raw_audio2: true, ..self.info.callbacks };
        OutputInfoBuilder { __data: PhantomData, info: OutputInfo { callbacks, ..self.info } }
    }
}

impl<D: Outputable + EncodedPacketOutput> OutputInfoBuilder<D> {
    /// Enables the `encoded_packet` callback.
    pub fn enable_encoded_packet(self) -> (r: Self)
        ensures
            r.spec_callbacks() == (OutputCallbacks { encoded_packet: true, ..self.spec_callbacks() }),
            r.spec_flags() == self.spec_flags(),
            r.spec_id() == self.spec_id(),
    {
        let callbacks = OutputCallbacks { encoded_packet: true, ..self.info.callbacks };
        OutputInfoBuilder { __data: PhantomData, info: OutputInfo { callbacks, ..self.info } }
    }
}

impl<D: Outputable + GetPropertiesOutput> OutputInfoBuilder<D> {
    /// Enables the `get_properties` callback.
    pub fn enable_get_properties(self) -> (r: Self)
        ensures
            r.spec_callbacks() == (OutputCallbacks { get_properties: true, ..self.spec_callbacks() }),
            r.spec_flags() == self.spec_flags(),
            r.spec_id() == self.spec_id(),
    {
        let callbacks = OutputCallbacks { get_properties: true, ..self.info.callbacks };
        OutputInfoBuilder { __data: PhantomData, info: OutputInfo { callbacks, ..self.info } }
    }
}

impl<D: Outputable + GetTotalBytesOutput> OutputInfoBuilder<D> {
    /// Enables the `get_total_bytes` callback.
    pub fn enable_get_total_bytes(self) -> (r: Self)
        ensures
            r.spec_callbacks() == (OutputCallbacks { get_total_bytes: true, ..self.spec_callbacks() }),
            r.spec_flags() == self.spec_flags(),
            r.spec_id() == self.spec_id(),
    {
        let callbacks = OutputCallbacks { get_total_bytes: true, ..self.info.callbacks };
        OutputInfoBuilder { __data: PhantomData, info: OutputInfo { callbacks, ..self.info } }
    }
}

impl<D: Outputable + GetDroppedFramesOutput> OutputInfoBuilder<D> {
    /// Enables the `get_dropped_frames` callback.
    pub fn enable_get_dropped_frames(self) -> (r: Self)
        ensures
            r.spec_callbacks() == (OutputCallbacks { get_dropped_frames: true, ..self.spec_callbacks() }),
            r.spec_flags() == self.spec_flags(),
            r.spec_id() == self.spec_id(),
    {
        let callbacks = OutputCallbacks { get_dropped_frames: true, ..self.info.callbacks };
        OutputInfoBuilder { __data: PhantomData, info: OutputInfo { callbacks, ..self.info } }
    }
}

impl<D: Outputable + GetConnectTimeMsOutput> OutputInfoBuilder<D> {
    /// Enables the `get_connect_time_ms` callback.
    pub fn enable_get_connect_time_ms(self) -> (r: Self)
        ensures
            r.spec_callbacks() == (OutputCallbacks { get_connect_time_ms: true, ..self.spec_callbacks() }),
            r.spec_flags() == self.spec_flags(),
            r.spec_id() == self.spec_id(),
    {
        let callbacks = OutputCallbacks { get_connect_time_ms: true, ..self.info.callbacks };
        OutputInfoBuilder { __data: PhantomData, info: OutputInfo { callbacks, ..self.info } }
    }
}

/// What [`OutputInfoBuilder::build`] does to the flags: the flags set
/// before are kept, a flag is set afterwards exactly when it was set
/// before or a callback that implies it is enabled (per-track audio implies
/// both audio and multi-track), and no other flag is touched.
pub proof fn lemma_output_build_flags(flags: u32, c: OutputCallbacks)
    ensures
        (flags | derived_output_flags(c)) & flags == flags,
        ((flags | derived_output_flags(c)) & OBS_OUTPUT_ENCODED != 0) <==> (flags
            & OBS_OUTPUT_ENCODED != 0 || c.encoded_packet),
        ((flags | derived_output_flags(c)) & OBS_OUTPUT_VIDEO != 0) <==> (flags & OBS_OUTPUT_VIDEO
            != 0 || c.raw_video),
        ((flags | derived_output_flags(c)) & OBS_OUTPUT_AUDIO != 0) <==> (flags & OBS_OUTPUT_AUDIO
            != 0 || c.raw_audio || c.raw_audio2),
        ((flags | derived_output_flags(c)) & OBS_OUTPUT_MULTI_TRACK != 0) <==> (flags
            & OBS_OUTPUT_MULTI_TRACK != 0 || c.raw_audio2),
        (flags | derived_output_flags(c)) & !(OBS_OUTPUT_VIDEO | OBS_OUTPUT_AUDIO
            | OBS_OUTPUT_ENCODED | OBS_OUTPUT_MULTI_TRACK) == flags & !(OBS_OUTPUT_VIDEO
            | OBS_OUTPUT_AUDIO | OBS_OUTPUT_ENCODED | OBS_OUTPUT_MULTI_TRACK),
{
    let e: u32 = if c.encoded_packet {
        4
    } else {
        0
    };
    let v: u32 = if c.raw_video {
        1
    } else {
        0
    };
    let a: u32 = if c.raw_audio || c.raw_audio2 {
        2
    } else {
        0
    };
    let m: u32 = if c.raw_audio2 {
        16
    } else {
        0
    };
    assert(derived_output_flags(c) == e | v | a | m);
    assert(1u32 | 2u32 | 4u32 | 16u32 == 23u32) by (bit_vector);
    assert((flags | (e | v | a | m)) & !23u32 == flags & !23u32) by (bit_vector)
        requires
            e == 0 || e == 4,
            v == 0 || v == 1,
            a == 0 || a == 2,
            m == 0 || m == 16,
    ;
    assert((flags | (e | v | a | m)) & flags == flags) by (bit_vector);
    assert(((flags | (e | v | a | m)) & 4 != 0) <==> (flags & 4 != 0 || e == 4)) by (bit_vector)
        requires
            e == 0 || e == 4,
            v == 0 || v == 1,
            a == 0 || a == 2,
            m == 0 || m == 16,
    ;
    assert(((flags | (e | v | a | m)) & 1 != 0) <==> (flags & 1 != 0 || v == 1)) by (bit_vector)
        requires
            e == 0 || e == 4,
            v == 0 || v == 1,
            a == 0 || a == 2,
            m == 0 || m == 16,
    ;
    assert(((flags | (e | v | a | m)) & 2 != 0) <==> (flags & 2 != 0 || a == 2)) by (bit_vector)
        requires
            e == 0 || e == 4,
            v == 0 || v == 1,
            a == 0 || a == 2,
            m == 0 || m == 16,
    ;
    assert(((flags | (e | v | a | m)) & 16 != 0) <==> (flags & 16 != 0 || m == 16)) by (bit_vector)
        requires
            e == 0 || e == 4,
            v == 0 || v == 1,
            a == 0 || a == 2,
            m == 0 || m == 16,
    ;
}

/// A created output: the plugin's instance together with the hotkeys its
/// create hook registered, which are then registered with libobs.
#[verifier::reject_recursive_types(D)]
pub struct OutputInstance<D> {
    /// The plugin's output instance.
    pub data: D,
    /// The hotkeys to register for the instance, in order.
    pub hotkeys: Vec<HotkeyRegistration<D>>,
}

/// The instance a create hook's result gives: on success the value with
/// the hotkeys registered during the hook, and none on failure.
pub fn instance_from_result<D>(result: Result<D, CreateError>, hotkeys: Vec<HotkeyRegistration<D>>) -> (r:
    Option<OutputInstance<D>>)
    ensures
        match result {
            Ok(d) => r matches Some(w) && w.data == d && w.hotkeys@ == hotkeys@,
            Err(_) => r is None,
        },
{
    match result {
        Ok(data) => Some(OutputInstance { data, hotkeys }),
        Err(_) => None,
    }
}

/// What OBS's create call for an output comes to: with no settings or no
/// output handle nothing is created; otherwise `D`'s create hook runs once,
/// on a context carrying the settings, and its result, with the hotkeys it
/// registered on the context, decides as [`instance_from_result`] says.
pub fn create_instance<D: Outputable>(settings: Option<Settings>, handle: Option<OutputRef>) -> (r:
    Option<OutputInstance<D>>)
    ensures
        settings is None || handle is None ==> r is None,
{
    let settings = match settings {
        Some(s) => s,
        None => {
            return None;
        },
    };
    let mut context = CreatableOutputContext::from_raw(settings);
    let handle = match handle {
        Some(h) => h,
        None => {
            return None;
        },
    };
    let result = D::create(&mut context, handle);
    instance_from_result(result, context.into_hotkeys())
}

/// libobs's `OBS_OUTPUT_*` flag values.
pub proof fn lemma_output_flag_values()
    ensures
        OBS_OUTPUT_VIDEO == 1,
        OBS_OUTPUT_AUDIO == 2,
        OBS_OUTPUT_ENCODED == 4,
        OBS_OUTPUT_MULTI_TRACK == 16,
{
}

} // verus!

//! Building blocks for authoring custom OBS encoders: the encoder kinds,
//! capability flags, and the registration record built from the callbacks
//! an encoder implements.

pub mod context;
pub mod traits;

use std::marker::PhantomData;

use vstd::prelude::*;

use crate::settings::Settings;
use crate::source::traits::CreateError;
use self::context::{
    CreatableEncoderContext, encode_outcome, spec_encode_outcome, EncodeError, EncodeStatus, EncoderFrame, EncoderPacket,
};
use self::traits::{
    Encodable, EncodeEncoder, EncodeTextureEncoder, GetExtraDataEncoder, GetFrameSizeEncoder,
    GetNameEncoder, GetSeiDataEncoder,
};

verus! {

/// A handle to a live OBS encoder (libobs `obs_encoder_t`), by libobs's address of it.
#[derive(Debug, PartialEq, Eq, Structural)]
pub struct EncoderRef {
    raw: usize,
}

impl EncoderRef {
    /// libobs's address of the object.
    pub closed spec fn spec_raw(&self) -> usize {
        self.raw
    }

    /// The handle for libobs address `raw`; a null address gives none.
    pub fn from_raw(raw: usize) -> (r: Option<EncoderRef>)
        ensures
            r is None <==> raw == 0,
            r matches Some(h) ==> h.spec_raw() == raw,
    {
        if raw == 0 {
            None
        } else {
            Some(EncoderRef { raw })
        }
    }

    /// libobs's address of the object.
    pub fn as_raw(&self) -> (r: usize)
        ensures
            r == self.spec_raw(),
    {
        self.raw
    }
}


/// The kind of media an encoder consumes.
#[derive(Debug, Clone, Copy, PartialEq, Eq, Structural)]
pub enum EncoderType {
    /// The encoder consumes raw audio samples.
    Audio,
    /// The encoder consumes raw video frames.
    Video,
}

/// libobs's `OBS_ENCODER_AUDIO`.
pub const OBS_ENCODER_AUDIO: u32 = 0;
/// libobs's `OBS_ENCODER_VIDEO`.
pub const OBS_ENCODER_VIDEO: u32 = 1;

impl EncoderType {
    /// The libobs enumerant of this kind.
    pub open spec fn spec_raw(self) -> u32 {
        match self {
            EncoderType::Audio => OBS_ENCODER_AUDIO,
            EncoderType::Video => OBS_ENCODER_VIDEO,
        }
    }

    /// The kind whose enumerant is `raw`, if there is one.
    pub open spec fn spec_from_raw(raw: u32) -> Option<EncoderType> {
        if raw == OBS_ENCODER_VIDEO {
            Some(EncoderType::Video)
        } else if raw == OBS_ENCODER_AUDIO {
            Some(EncoderType::Audio)
        } else {
            None
        }
    }

    /// Converts to the underlying libobs enumerant.
    pub fn as_raw(self) -> (r: u32)
        ensures
            r == self.spec_raw(),
    {
        match self {
            EncoderType::Audio => OBS_ENCODER_AUDIO,
            EncoderType::Video => OBS_ENCODER_VIDEO,
        }
    }

    /// Maps a libobs enumerant to a kind, or `None` if it names none.
    pub fn from_raw(raw: u32) -> (r: Option<EncoderType>)
        ensures
            r == Self::spec_from_raw(raw),
    {
        if raw == OBS_ENCODER_VIDEO {
            Some(EncoderType::Video)
        } else if raw == OBS_ENCODER_AUDIO {
            Some(EncoderType::Audio)
        } else {
            None
        }
    }
}


/// Capability flags advertised by an encoder (the OBS 31+ set).
#[derive(Debug, Clone, Copy, PartialEq, Eq, Structural)]
pub enum EncoderCap {
    /// Encoder is deprecated and should not be exposed to new users.
    Deprecated,
    /// Encoder consumes shared textures rather than CPU buffers. Required
    /// for [`EncodeTextureEncoder`].
    PassTexture,
    /// Encoder supports changing its bitrate at runtime.
    DynBitrate,
    /// Encoder is for libobs-internal use only and should not appear in
    /// user-facing pickers.
    Internal,
    /// Encoder accepts region-of-interest hints.
    Roi,
    /// Encoder can scale its input to a different output resolution.
    Scaling,
}

impl EncoderCap {
    /// The libobs `OBS_ENCODER_CAP_*` bit of this capability.
    pub open spec fn spec_bit(self) -> u32 {
        match self {
            EncoderCap::Deprecated => 1,
            EncoderCap::PassTexture => 2,
            EncoderCap::DynBitrate => 4,
            EncoderCap::Internal => 8,
            EncoderCap::Roi => 16,
            EncoderCap::Scaling => 32,
        }
    }

    /// The libobs `OBS_ENCODER_CAP_*` bit of this capability.
    pub fn bit(self) -> (r: u32)
        ensures
            r == self.spec_bit(),
    {
        match self {
            EncoderCap::Deprecated => 1,
            EncoderCap::PassTexture => 2,
            EncoderCap::DynBitrate => 4,
            EncoderCap::Internal => 8,
            EncoderCap::Roi => 16,
            EncoderCap::Scaling => 32,
        }
    }
}

/// A composed set of [`EncoderCap`] flags.
#[derive(Debug, Clone, Copy, PartialEq, Eq, Structural)]
pub struct EncoderCaps {
    deprecated: bool,
    pass_texture: bool,
    dyn_bitrate: bool,
    internal: bool,
    roi: bool,
    scaling: bool,
}

impl EncoderCaps {
    /// Whether `cap` is in the set.
    pub closed spec fn has(self, cap: EncoderCap) -> bool {
        match cap {
            EncoderCap::Deprecated => self.deprecated,
            EncoderCap::PassTexture => self.pass_texture,
            EncoderCap::DynBitrate => self.dyn_bitrate,
            EncoderCap::Internal => self.internal,
            EncoderCap::Roi => self.roi,
            EncoderCap::Scaling => self.scaling,
        }
    }

    /// The set of capabilities, as a set.
    pub open spec fn view(self) -> Set<EncoderCap> {
        Set::new(|c: EncoderCap| self.has(c))
    }

    /// The `caps` word libobs reads: the sum of the bits of the members.
    pub closed spec fn spec_bits(self) -> u32 {
        ((if self.deprecated { 1u32 } else { 0u32 }) + (if self.pass_texture { 2u32 } else { 0u32 })
            + (if self.dyn_bitrate { 4u32 } else { 0u32 }) + (if self.internal { 8u32 } else { 0u32 })
            + (if self.roi { 16u32 } else { 0u32 }) + (if self.scaling { 32u32 } else { 0u32 })) as u32
    }

    /// The empty set.
    pub fn empty() -> (r: Self)
        ensures
            forall|c: EncoderCap| !r.has(c),
            r.spec_bits() == 0,
    {
        EncoderCaps {
            deprecated: false,
            pass_texture: false,
            dyn_bitrate: false,
            internal: false,
            roi: false,
            scaling: false,
        }
    }

    /// The set holding `cap` alone.
    pub fn from_cap(cap: EncoderCap) -> (r: Self)
        ensures
            forall|c: EncoderCap| r.has(c) == (c == cap),
            r.spec_bits() == cap.spec_bit(),
    {
        let e = Self::empty();
        let r = e.with(cap);
        proof {
            reveal(EncoderCaps::spec_bits);
        }
        r
    }

    /// This set with `cap` added.
    pub fn with(self, cap: EncoderCap) -> (r: Self)
        ensures
            forall|c: EncoderCap| r.has(c) == (self.has(c) || c == cap),
            r.spec_bits() == if self.has(cap) {
                self.spec_bits() as int
            } else {
                self.spec_bits() + cap.spec_bit()
            },
    {
        match cap {
            EncoderCap::Deprecated => EncoderCaps { deprecated: true, ..self },
            EncoderCap::PassTexture => EncoderCaps { pass_texture: true, ..self },
            EncoderCap::DynBitrate => EncoderCaps { dyn_bitrate: true, ..self },
            EncoderCap::Internal => EncoderCaps { internal: true, ..self },
            EncoderCap::Roi => EncoderCaps { roi: true, ..self },
            EncoderCap::Scaling => EncoderCaps { scaling: true, ..self },
        }
    }

    /// The union of two sets (what `a | b` composes).
    pub fn union(self, other: Self) -> (r: Self)
        ensures
            forall|c: EncoderCap| r.has(c) == (self.has(c) || other.has(c)),
    {
        EncoderCaps {
            deprecated: self.deprecated || other.deprecated,
            pass_texture: self.pass_texture || other.pass_texture,
            dyn_bitrate: self.dyn_bitrate || other.dyn_bitrate,
            internal: self.internal || other.internal,
            roi: self.roi || other.roi,
            scaling: self.scaling || other.scaling,
        }
    }

    /// Whether `cap` is in the set.
    pub fn contains(&self, cap: EncoderCap) -> (r: bool)
        ensures
            r == self.has(cap),
    {
        match cap {
            EncoderCap::Deprecated => self.deprecated,
            EncoderCap::PassTexture => self.pass_texture,
            EncoderCap::DynBitrate => self.dyn_bitrate,
            EncoderCap::Internal => self.internal,
            EncoderCap::Roi => self.roi,
            EncoderCap::Scaling => self.scaling,
        }
    }

    /// The `caps` word handed to libobs.
    pub fn bits(&self) -> (r: u32)
        ensures
            r == self.spec_bits(),
    {
        let mut b: u32 = 0;
        if self.deprecated {
            b = b + 1;
        }
        if self.pass_texture {
            b = b + 2;
        }
        if self.dyn_bitrate {
            b = b + 4;
        }
        if self.internal {
            b = b + 8;
        }
        if self.roi {
            b = b + 16;
        }
        if self.scaling {
            b = b + 32;
        }
        b
    }
}

/// The `caps` word holds a capability's bit exactly when the capability is
/// in the set, so two sets with the same word are the same set.
pub proof fn lemma_caps_bits_injective(a: EncoderCaps, b: EncoderCaps)
    ensures
        a.spec_bits() == b.spec_bits() ==> (forall|c: EncoderCap| a.has(c) == b.has(c)),
        a.spec_bits() <= 63,
{
    reveal(EncoderCaps::spec_bits);
    reveal(EncoderCaps::has);
}


/// Which optional callbacks an encoder registration wires up.
#[derive(Debug, Clone, Copy, PartialEq, Eq, Structural)]
pub struct EncoderCallbacks {
    pub get_name: bool,
    pub encode: bool,
    pub encode_texture: bool,
    pub get_extra_data: bool,
    pub get_sei_data: bool,
    pub get_frame_size: bool,
}

impl EncoderCallbacks {
    /// No optional callback.
    pub open spec fn spec_none() -> Self {
        EncoderCallbacks {
            get_name: false,
            encode: false,
            encode_texture: false,
            get_extra_data: false,
            get_sei_data: false,
            get_frame_size: false,
        }
    }

    /// No optional callback.
    pub fn none() -> (r: Self)
        ensures
            r == Self::spec_none(),
    {
        EncoderCallbacks {
            get_name: false,
            encode: false,
            encode_texture: false,
            get_extra_data: false,
            get_sei_data: false,
            get_frame_size: false,
        }
    }
}

/// A fully-configured encoder registration, ready to be handed to OBS.
///
/// Produced by [`EncoderInfoBuilder::build`].
#[derive(Debug, Clone, Copy)]
pub struct EncoderInfo {
    /// The encoder's identifier.
    pub id: &'static str,
    /// The codec it produces.
    pub codec: &'static str,
    /// Whether it consumes audio or video.
    pub encoder_type: EncoderType,
    /// The `OBS_ENCODER_CAP_*` word.
    pub caps: u32,
    /// The optional callbacks it wires up.
    pub callbacks: EncoderCallbacks,
}

impl EncoderInfo {
    /// Whether the registration can produce packets and, for audio, knows
    /// its frame size: the conditions [`EncoderInfoBuilder::build`] checks.
    pub open spec fn spec_is_complete(self) -> bool {
        &&& self.callbacks.encode || self.callbacks.encode_texture
        &&& self.encoder_type == EncoderType::Audio ==> self.callbacks.get_frame_size
    }
}

/// Builder that wires up the OBS callbacks for a custom encoder `D`.
///
/// Call the matching `enable_*` method for each optional trait implemented
/// on `D`; each is bounded on that trait, so the compiler refuses to enable
/// a callback the encoder cannot service. Finalize with
/// [`build`](Self::build).
pub struct EncoderInfoBuilder<D: Encodable> {
    __data: PhantomData<D>,
    info: EncoderInfo,
}

impl<D: Encodable> EncoderInfoBuilder<D> {
    /// The registration built so far.
    pub closed spec fn spec_info(&self) -> EncoderInfo {
        self.info
    }

    /// A builder for `D` with no capability and no optional callback.
    pub fn new() -> (r: Self)
        ensures
            r.spec_info().caps == 0,
            r.spec_info().callbacks == EncoderCallbacks::spec_none(),
    {
        EncoderInfoBuilder {
            __data: PhantomData,
            info: EncoderInfo {
                id: D::get_id(),
                codec: D::get_codec(),
                encoder_type: D::get_type(),
                caps: 0,
                callbacks: EncoderCallbacks::none(),
            },
        }
    }

    /// Sets the capability flags advertised to OBS.
    pub fn with_caps(self, caps: EncoderCaps) -> (r: Self)
        ensures
            r.spec_info() == (EncoderInfo { caps: caps.spec_bits(), ..self.spec_info() }),
    {
        let mut this = self;
        this.info.caps = caps.bits();
        this
    }

    /// Whether [`build`](Self::build) may be called: an encode path is
    /// enabled and, for an audio encoder, so is the frame-size callback.
    pub fn is_complete(&self) -> (r: bool)
        ensures
            r == self.spec_info().spec_is_complete(),
    {
        (self.info.callbacks.encode || self.info.callbacks.encode_texture) && (
        !matches!(self.info.encoder_type, EncoderType::Audio) || self.info.callbacks.get_frame_size)
    }

    /// Finalizes the builder into an [`EncoderInfo`].
    ///
    /// Every encoder must produce packets through some encode path, and an
    /// audio encoder must report its frame size: a registration missing
    /// either is a programming error, so [`is_complete`](Self::is_complete)
    /// must hold here.
    pub fn build(self) -> (r: EncoderInfo)
        requires
            self.spec_info().spec_is_complete(),
        ensures
            r == self.spec_info(),
    {
        self.info
    }
}

impl<D: Encodable + GetNameEncoder> EncoderInfoBuilder<D> {
    /// Enables the display-name callback.
    pub fn enable_get_name(self) -> (r: Self)
        ensures
            r.spec_info() == (EncoderInfo {
                callbacks: EncoderCallbacks { get_name: true, ..self.spec_info().callbacks },
                ..self.spec_info()
            }),
    {
        let mut this = self;
        this.info.callbacks.get_name = true;
        this
    }
}

impl<D: Encodable + EncodeEncoder> EncoderInfoBuilder<D> {
    /// Enables the CPU encode callback.
    pub fn enable_encode(self) -> (r: Self)
        ensures
            r.spec_info() == (EncoderInfo {
                callbacks: EncoderCallbacks { encode: true, ..self.spec_info().callbacks },
                ..self.spec_info()
            }),
    {
        let mut this = self;
        this.info.callbacks.encode = true;
        this
    }
}

impl<D: Encodable + EncodeTextureEncoder> EncoderInfoBuilder<D> {
    /// Enables the texture encode callback.
    pub fn enable_encode_texture(self) -> (r: Self)
        ensures
            r.spec_info() == (EncoderInfo {
                callbacks: EncoderCallbacks { encode_texture: true, ..self.spec_info().callbacks },
                ..self.spec_info()
            }),
    {
        let mut this = self;
        this.info.callbacks.encode_texture = true;
        this
    }
}

impl<D: Encodable + GetExtraDataEncoder> EncoderInfoBuilder<D> {
    /// Enables the extra-data callback.
    pub fn enable_get_extra_data(self) -> (r: Self)
        ensures
            r.spec_info() == (EncoderInfo {
                callbacks: EncoderCallbacks { get_extra_data: true, ..self.spec_info().callbacks },
                ..self.spec_info()
            }),
    {
        let mut this = self;
        this.info.callbacks.get_extra_data = true;
        this
    }
}

impl<D: Encodable + GetSeiDataEncoder> EncoderInfoBuilder<D> {
    /// Enables the SEI-data callback.
    pub fn enable_get_sei_data(self) -> (r: Self)
        ensures
            r.spec_info() == (EncoderInfo {
                callbacks: EncoderCallbacks { get_sei_data: true, ..self.spec_info().callbacks },
                ..self.spec_info()
            }),
    {
        let mut this = self;
        this.info.callbacks.get_sei_data = true;
        this
    }
}

impl<D: Encodable + GetFrameSizeEncoder> EncoderInfoBuilder<D> {
    /// Enables the frame-size callback.
    pub fn enable_get_frame_size(self) -> (r: Self)
        ensures
            r.spec_info() == (EncoderInfo {
                callbacks: EncoderCallbacks { get_frame_size: true, ..self.spec_info().callbacks },
                ..self.spec_info()
            }),
    {
        let mut this = self;
        this.info.callbacks.get_frame_size = true;
        this
    }
}

/// One encode call as the encode callback shim makes it: the packet's
/// payload is cleared, the encoder consumes `frame` and may write into the
/// packet, and the encoder's result comes back together with the shim's
/// report `(succeeded, packet_received)` for it. When a packet is received,
/// the packet's payload (what the encoder wrote during this call) is what
/// libobs gets.
pub fn encode_into<D: EncodeEncoder>(
    encoder: &mut D,
    frame: &EncoderFrame<'_>,
    packet: &mut EncoderPacket,
) -> (r: (Result<EncodeStatus, EncodeError>, (bool, bool)))
    ensures
        r.1 == spec_encode_outcome(r.0),
{
    packet.reset();
    let result = encoder.encode(frame, packet);
    let outcome = encode_outcome(&result);
    (result, outcome)
}

/// One texture encode call as the texture encode callback shim makes it:
/// the packet's payload is cleared, the encoder consumes the texture
/// `handle` and may write into the packet, and the encoder's result comes
/// back together with the shim's report `(succeeded, packet_received)` for
/// it.
pub fn encode_texture_into<D: EncodeTextureEncoder>(
    encoder: &mut D,
    handle: u32,
    pts: i64,
    lock_key: u64,
    next_key: &mut u64,
    packet: &mut EncoderPacket,
) -> (r: (Result<EncodeStatus, EncodeError>, (bool, bool)))
    ensures
        r.1 == spec_encode_outcome(r.0),
{
    packet.reset();
    let result = encoder.encode_texture(handle, pts, lock_key, next_key, packet);
    let outcome = encode_outcome(&result);
    (result, outcome)
}

/// A created encoder: the plugin's instance together with the buffers the
/// encoder callbacks hand to libobs (packet payload, extra data, SEI data).
pub struct EncoderInstance<D> {
    /// The plugin's encoder instance.
    pub data: D,
    /// The packet payload buffer.
    pub buffer: Vec<u8>,
    /// The extra-data buffer.
    pub extra_data: Vec<u8>,
    /// The SEI-data buffer.
    pub sei_data: Vec<u8>,
}

/// The instance a create hook's result gives: the value with empty buffers
/// on success, and none on failure.
pub fn instance_from_result<D>(result: Result<D, CreateError>) -> (r: Option<EncoderInstance<D>>)
    ensures
        match result {
            Ok(d) => r matches Some(w) && w.data == d && w.buffer@.len() == 0
                && w.extra_data@.len() == 0 && w.sei_data@.len() == 0,
            Err(_) => r is None,
        },
{
    match result {
        Ok(data) => Some(
            EncoderInstance { data, buffer: Vec::new(), extra_data: Vec::new(), sei_data: Vec::new() },
        ),
        Err(_) => None,
    }
}

/// What OBS's create call for an encoder comes to: with no settings or no
/// encoder handle nothing is created; otherwise `D`'s create hook runs
/// once, on a context carrying the settings, and its result decides as
/// [`instance_from_result`] says.
pub fn create_instance<D: Encodable>(settings: Option<Settings>, handle: Option<EncoderRef>) -> (r:
    Option<EncoderInstance<D>>)
    ensures
        settings is None || handle is None ==> r is None,
        r matches Some(w) ==> w.buffer@.len() == 0 && w.extra_data@.len() == 0
            && w.sei_data@.len() == 0,
{
    let settings = match settings {
        Some(s) => s,
        None => {
            return None;
        },
    };
    let handle = match handle {
        Some(h) => h,
        None => {
            return None;
        },
    };
    let mut context = CreatableEncoderContext::new(settings);
    let result = D::create(&mut context, handle);
    instance_from_result(result)
}

/// Each value's libobs enumerant, as libobs numbers them, and the value each of those
/// enumerants stands for.
pub proof fn lemma_encoder_type_numbering()
    ensures
        EncoderType::Audio.spec_raw() == 0,
        EncoderType::spec_from_raw(0) == Some(EncoderType::Audio),
        EncoderType::Video.spec_raw() == 1,
        EncoderType::spec_from_raw(1) == Some(EncoderType::Video),
{
}

/// Each value's libobs bit, as libobs numbers them.
pub proof fn lemma_encoder_cap_numbering()
    ensures
        EncoderCap::Deprecated.spec_bit() == 1,
        EncoderCap::PassTexture.spec_bit() == 2,
        EncoderCap::DynBitrate.spec_bit() == 4,
        EncoderCap::Internal.spec_bit() == 8,
        EncoderCap::Roi.spec_bit() == 16,
        EncoderCap::Scaling.spec_bit() == 32,
{
}

/// When an encoder registration is complete: either encode path (CPU
/// frames or GPU textures) is enough for a video encoder, an audio encoder
/// also needs its frame size, and without an encode path no registration
/// is complete, whatever else is enabled.
pub proof fn lemma_encoder_completeness(info: EncoderInfo)
    ensures
        info.encoder_type == EncoderType::Video && (info.callbacks.encode
            || info.callbacks.encode_texture) ==> info.spec_is_complete(),
        info.encoder_type == EncoderType::Audio && (info.callbacks.encode
            || info.callbacks.encode_texture) && info.callbacks.get_frame_size
            ==> info.spec_is_complete(),
        info.encoder_type == EncoderType::Audio && !info.callbacks.get_frame_size
            ==> !info.spec_is_complete(),
        !info.callbacks.encode && !info.callbacks.encode_texture ==> !info.spec_is_complete(),
{
}

} // verus!

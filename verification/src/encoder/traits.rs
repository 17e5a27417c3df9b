//! The traits an encoder implements; each optional one is switched on with
//! the matching `enable_*` method of
//! [`EncoderInfoBuilder`](super::EncoderInfoBuilder).

use vstd::prelude::*;

use super::context::{
    CreatableEncoderContext, EncodeError, EncodeStatus, EncoderFrame, EncoderPacket,
};
use super::{EncoderRef, EncoderType};
use crate::source::traits::CreateError;

verus! {

/// The mandatory trait every encoder implements: its identity and its
/// constructor.
pub trait Encodable: Sized {
    /// Returns the globally-unique identifier for this encoder type.
    fn get_id() -> &'static str;

    /// Returns the codec this encoder produces (e.g. `"h264"`).
    fn get_codec() -> &'static str;

    /// Returns whether this encoder consumes audio or video.
    fn get_type() -> EncoderType;

    /// Constructs a new encoder instance, each time OBS creates an encoder
    /// of this type.
    fn create(context: &mut CreatableEncoderContext, encoder: EncoderRef) -> Result<
        Self,
        CreateError,
    >;
}

/// Provides a user-visible display name for the encoder.
pub trait GetNameEncoder {
    /// Returns the display name shown in OBS UIs.
    fn get_name() -> &'static str;
}

/// Encodes raw frames read from CPU memory.
pub trait EncodeEncoder: Sized {
    /// Consumes `frame` and, when a packet is ready, writes it to `packet`,
    /// whose payload is empty when the call starts.
    fn encode(&mut self, frame: &EncoderFrame, packet: &mut EncoderPacket) -> Result<
        EncodeStatus,
        EncodeError,
    >
        requires
            old(packet).payload() == Seq::<u8>::empty(),
    ;
}

/// Encodes frames handed over as shared GPU textures.
pub trait EncodeTextureEncoder: Sized {
    /// Consumes the texture `handle` and, when a packet is ready, writes it
    /// to `packet`, whose payload is empty when the call starts. `next_key`
    /// receives the key of the next texture lock.
    fn encode_texture(
        &mut self,
        handle: u32,
        pts: i64,
        lock_key: u64,
        next_key: &mut u64,
        packet: &mut EncoderPacket,
    ) -> Result<EncodeStatus, EncodeError>
        requires
            old(packet).payload() == Seq::<u8>::empty(),
    ;
}

/// Produces codec extra data (e.g. sequence headers).
pub trait GetExtraDataEncoder: Sized {
    /// Writes the extra data into `data`; returns `false` if there is none.
    fn get_extra_data(&mut self, data: &mut Vec<u8>) -> bool;
}

/// Produces supplemental enhancement information.
pub trait GetSeiDataEncoder: Sized {
    /// Writes the SEI payload into `data`; returns `false` if there is none.
    fn get_sei_data(&mut self, data: &mut Vec<u8>) -> bool;
}

/// Reports the number of audio frames an audio encoder consumes per call.
pub trait GetFrameSizeEncoder: Sized {
    /// Returns the frame size, in audio frames.
    fn get_frame_size(&self) -> usize;
}

} // verus!

use obs_rs::encoder::context::CreatableEncoderContext;
use obs_rs::encoder::EncoderRef;
use obs_rs::source::traits::CreateError;
use obs_rs::encoder::context::{
    encode_outcome, EncodeError, EncodeStatus, EncodedPacketView, EncoderFrame, EncoderPacket,
    PacketHeader,
};
use obs_rs::encoder::traits::{
    EncodeEncoder, Encodable, GetExtraDataEncoder, GetFrameSizeEncoder, GetNameEncoder,
};
use obs_rs::encoder::{EncoderCap, EncoderCaps, EncoderInfoBuilder, EncoderType};

struct AudioEnc;

impl Encodable for AudioEnc {
    fn create(_context: &mut CreatableEncoderContext, _handle: EncoderRef) -> Result<Self, CreateError> {
        Ok(AudioEnc)
    }
    fn get_id() -> &'static str {
        "test_audio_enc"
    }
    fn get_codec() -> &'static str {
        "aac"
    }
    fn get_type() -> EncoderType {
        EncoderType::Audio
    }
}

impl GetNameEncoder for AudioEnc {
    fn get_name() -> &'static str {
        "Test Audio Encoder"
    }
}

impl EncodeEncoder for AudioEnc {
    fn encode(
        &mut self,
        _frame: &EncoderFrame,
        packet: &mut EncoderPacket,
    ) -> Result<EncodeStatus, EncodeError> {
        packet.write(&[1, 2, 3]);
        Ok(EncodeStatus::Received)
    }
}

impl GetFrameSizeEncoder for AudioEnc {
    fn get_frame_size(&self) -> usize {
        1024
    }
}

impl GetExtraDataEncoder for AudioEnc {
    fn get_extra_data(&mut self, data: &mut Vec<u8>) -> bool {
        data.push(0x12);
        true
    }
}

#[test]
fn encoder_type_raw_values() {
    assert_eq!(EncoderType::Audio.as_raw(), 0);
    assert_eq!(EncoderType::Video.as_raw(), 1);
    assert_eq!(EncoderType::from_raw(1), Some(EncoderType::Video));
    assert_eq!(EncoderType::from_raw(2), None);
}

#[test]
fn encoder_cap_bits() {
    assert_eq!(EncoderCap::Deprecated.bit(), 1);
    assert_eq!(EncoderCap::PassTexture.bit(), 2);
    assert_eq!(EncoderCap::DynBitrate.bit(), 4);
    assert_eq!(EncoderCap::Internal.bit(), 8);
    assert_eq!(EncoderCap::Roi.bit(), 16);
    assert_eq!(EncoderCap::Scaling.bit(), 32);
}

#[test]
fn encoder_caps_compose() {
    let caps = EncoderCaps::empty()
        .with(EncoderCap::DynBitrate)
        .with(EncoderCap::Roi)
        .with(EncoderCap::DynBitrate);
    assert_eq!(caps.bits(), 4 | 16);
    assert!(caps.contains(EncoderCap::Roi));
    assert!(!caps.contains(EncoderCap::Scaling));
    let both = caps.union(EncoderCaps::from_cap(EncoderCap::Scaling));
    assert_eq!(both.bits(), 4 | 16 | 32);
    assert_eq!(EncoderCaps::empty().bits(), 0);
}

#[test]
fn encoder_builder_collects_callbacks() {
    let b = EncoderInfoBuilder::<AudioEnc>::new();
    assert!(!b.is_complete());
    let b = b.enable_get_name().enable_encode();
    // an audio encoder also needs its frame size
    assert!(!b.is_complete());
    let b = b
        .enable_get_frame_size()
        .enable_get_extra_data()
        .with_caps(EncoderCaps::from_cap(EncoderCap::DynBitrate));
    assert!(b.is_complete());
    let info = b.build();
    assert_eq!(info.id, "test_audio_enc");
    assert_eq!(info.codec, "aac");
    assert_eq!(info.encoder_type, EncoderType::Audio);
    assert_eq!(info.caps, 4);
    assert!(info.callbacks.get_name);
    assert!(info.callbacks.encode);
    assert!(!info.callbacks.encode_texture);
    assert!(info.callbacks.get_extra_data);
    assert!(!info.callbacks.get_sei_data);
    assert!(info.callbacks.get_frame_size);
}

#[test]
fn packet_write_then_view_reads_back() {
    let mut packet = EncoderPacket::from_parts(PacketHeader::zeroed(), vec![9, 9]);
    packet.reset();
    packet.write(&[1, 2]);
    packet.write(&[3]);
    packet.set_pts(100);
    packet.set_dts(90);
    packet.set_keyframe(true);
    packet.set_priority(2);
    packet.set_drop_priority(3);
    packet.set_track_idx(1);
    packet.set_timebase(1, 48000);
    packet.set_packet_type(EncoderType::Audio);
    let view = packet.view();
    assert_eq!(view.data(), &[1, 2, 3][..]);
    assert_eq!(view.pts(), 100);
    assert_eq!(view.dts(), 90);
    assert!(view.keyframe());
    assert_eq!(view.priority(), 2);
    assert_eq!(view.drop_priority(), 3);
    assert_eq!(view.track_idx(), 1);
    assert_eq!(view.timebase(), (1, 48000));
    assert_eq!(view.packet_type(), Some(EncoderType::Audio));
}

#[test]
fn packet_writer_appends() {
    let mut packet = EncoderPacket::from_parts(PacketHeader::zeroed(), vec![7]);
    packet.writer().extend_from_slice(&[8, 9]);
    assert_eq!(packet.view().data(), &[7, 8, 9][..]);
}

#[test]
fn packet_view_from_raw_unknown_type() {
    let mut header = PacketHeader::zeroed();
    header.type_ = 5;
    let data = [1u8];
    let view = EncodedPacketView::from_raw(&header, &data);
    assert_eq!(view.packet_type(), None);
    assert_eq!(view.data(), &data[..]);
}

#[test]
fn encode_callback_outcomes() {
    assert_eq!(encode_outcome(&Ok(EncodeStatus::Received)), (true, true));
    assert_eq!(encode_outcome(&Ok(EncodeStatus::NotReady)), (true, false));
    let err = EncodeError { message: String::from("boom") };
    assert_eq!(encode_outcome(&Err(err)), (false, false));
}

#[test]
fn encode_through_trait_fills_packet() {
    let empty: &[u8] = &[];
    let frame = EncoderFrame::from_parts([empty; 8], [0; 8], 1024, 5);
    assert_eq!(frame.frames(), 1024);
    assert_eq!(frame.pts(), 5);
    let mut packet = EncoderPacket::from_parts(PacketHeader::zeroed(), Vec::new());
    let mut enc = AudioEnc;
    let result = enc.encode(&frame, &mut packet);
    assert_eq!(encode_outcome(&result), (true, true));
    assert_eq!(packet.view().data(), &[1, 2, 3][..]);
    let mut extra = Vec::new();
    assert!(enc.get_extra_data(&mut extra));
    assert_eq!(extra, vec![0x12]);
    assert_eq!(enc.get_frame_size(), 1024);
}

#[test]
fn encoder_frame_planes() {
    let y = [1u8, 2, 3, 4];
    let empty: &[u8] = &[];
    let frame = EncoderFrame::from_parts(
        [&y, empty, empty, empty, empty, empty, empty, empty],
        [2, 0, 0, 0, 0, 0, 0, 0],
        1,
        0,
    );
    assert_eq!(frame.plane_ptr(0), &y[..]);
    assert_eq!(frame.plane(0, 2), &y[..2]);
    assert_eq!(frame.linesize(0), 2);
}

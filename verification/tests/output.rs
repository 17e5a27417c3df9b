use obs_rs::output::context::CreatableOutputContext;
use obs_rs::output::OutputRef;
use obs_rs::source::traits::CreateError;
use obs_rs::encoder::context::EncodedPacketView;
use obs_rs::media::audio::AudioDataOutputContext;
use obs_rs::media::video::VideoDataOutputContext;
use obs_rs::output::traits::{
    EncodedPacketOutput, GetNameOutput, Outputable, RawAudio2Output, RawAudioOutput,
    RawVideoOutput,
};
use obs_rs::output::{
    OutputInfoBuilder, OBS_OUTPUT_AUDIO, OBS_OUTPUT_ENCODED, OBS_OUTPUT_MULTI_TRACK,
    OBS_OUTPUT_VIDEO,
};

struct RawOut;

impl Outputable for RawOut {
    fn create(_context: &mut CreatableOutputContext<Self>, _handle: OutputRef) -> Result<Self, CreateError> {
        Ok(RawOut)
    }
    fn get_id() -> &'static str {
        "raw_out"
    }
}

impl GetNameOutput for RawOut {
    fn get_name() -> &'static str {
        "Raw Output"
    }
}

impl RawVideoOutput for RawOut {
    fn raw_video(&mut self, _frame: &mut VideoDataOutputContext<'_>) {}
}

impl RawAudioOutput for RawOut {
    fn raw_audio(&mut self, _frame: &mut AudioDataOutputContext<'_>) {}
}

impl RawAudio2Output for RawOut {
    fn raw_audio2(&mut self, _idx: usize, _frame: &mut AudioDataOutputContext<'_>) {}
}

struct EncodedOut {
    bytes: usize,
}

impl Outputable for EncodedOut {
    fn create(_context: &mut CreatableOutputContext<Self>, _handle: OutputRef) -> Result<Self, CreateError> {
        Ok(EncodedOut { bytes: 0 })
    }
    fn get_id() -> &'static str {
        "encoded_out"
    }
}

impl EncodedPacketOutput for EncodedOut {
    fn encoded_packet(&mut self, packet: &EncodedPacketView<'_>) {
        self.bytes += packet.data().len();
    }
}

#[test]
fn output_flag_values() {
    assert_eq!(
        (OBS_OUTPUT_VIDEO, OBS_OUTPUT_AUDIO, OBS_OUTPUT_ENCODED, OBS_OUTPUT_MULTI_TRACK),
        (1, 2, 4, 16)
    );
}

#[test]
fn output_build_derives_raw_flags() {
    let info = OutputInfoBuilder::<RawOut>::new()
        .enable_get_name()
        .enable_raw_video()
        .enable_raw_audio()
        .build();
    assert_eq!(info.id, "raw_out");
    assert_eq!(info.flags, OBS_OUTPUT_VIDEO | OBS_OUTPUT_AUDIO);
    assert!(info.callbacks.get_name);
    assert!(info.callbacks.raw_video);
    assert!(info.callbacks.raw_audio);
    assert!(!info.callbacks.raw_audio2);
}

#[test]
fn output_multi_track_audio_sets_both_flags() {
    let info = OutputInfoBuilder::<RawOut>::new().enable_raw_audio2().build();
    assert_eq!(info.flags, OBS_OUTPUT_AUDIO | OBS_OUTPUT_MULTI_TRACK);
}

#[test]
fn output_encoded_flag() {
    let info = OutputInfoBuilder::<EncodedOut>::new().enable_encoded_packet().build();
    assert_eq!(info.flags, OBS_OUTPUT_ENCODED);
    let empty = OutputInfoBuilder::<EncodedOut>::new().build();
    assert_eq!(empty.flags, 0);
}

#[test]
fn output_default_start_and_stop() {
    let mut out = EncodedOut { bytes: 0 };
    assert!(out.start());
    out.stop(10);
    assert_eq!(out.bytes, 0);
}

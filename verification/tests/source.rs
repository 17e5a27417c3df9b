use obs_rs::source::{accepts_async_audio, accepts_async_video};
use obs_rs::source::context::CreatableSourceContext;
use obs_rs::source::traits::CreateError;
use obs_rs::source::SourceRef;
use obs_rs::media::audio::AudioDataContext;
use obs_rs::media::state::MediaState;
use obs_rs::media::video::{VideoDataSourceContext, VideoFormat};
use obs_rs::source::context::{GlobalContext, VideoRenderContext};
use obs_rs::source::push::{AudioFormat, Plane, SourceAudio, SourceVideoFrame, Speakers};
use obs_rs::source::traits::{
    FilterAudioSource, FilterVideoSource, FocusSource, GetNameSource, MediaGetStateSource,
    MediaPlayPauseSource, Sourceable, VideoRenderSource,
};
use obs_rs::source::{
    Icon, MouseButton, SourceInfoBuilder, SourceType, OBS_SOURCE_ASYNC_VIDEO, OBS_SOURCE_AUDIO,
    OBS_SOURCE_CONTROLLABLE_MEDIA, OBS_SOURCE_INTERACTION, OBS_SOURCE_VIDEO,
};

struct TestSource {
    paused: bool,
}

impl Sourceable for TestSource {
    fn create(_context: &mut CreatableSourceContext<'_, Self>, _handle: SourceRef) -> Result<Self, CreateError> {
        Ok(TestSource { paused: false })
    }
    fn get_id() -> &'static str {
        "test_source"
    }
    fn get_type() -> SourceType {
        SourceType::Input
    }
}

impl GetNameSource for TestSource {
    fn get_name() -> &'static str {
        "Test Source"
    }
}

impl VideoRenderSource for TestSource {
    fn video_render(&mut self, _context: &mut GlobalContext, _render: &mut VideoRenderContext) {}
}

impl FocusSource for TestSource {
    fn focus(&mut self, _focused: bool) {}
}

impl MediaPlayPauseSource for TestSource {
    fn play_pause(&mut self, pause: bool) {
        self.paused = pause;
    }
}

impl MediaGetStateSource for TestSource {
    fn get_state(&self) -> MediaState {
        if self.paused {
            MediaState::Paused
        } else {
            MediaState::Playing
        }
    }
}

struct TestFilter;

impl Sourceable for TestFilter {
    fn create(_context: &mut CreatableSourceContext<'_, Self>, _handle: SourceRef) -> Result<Self, CreateError> {
        Ok(TestFilter)
    }
    fn get_id() -> &'static str {
        "test_filter"
    }
    fn get_type() -> SourceType {
        SourceType::Filter
    }
}

impl FilterAudioSource for TestFilter {
    fn filter_audio(&mut self, audio: &mut AudioDataContext<'_>) {
        for c in 0..audio.channels() {
            if let Some(samples) = audio.get_channel_as_mut_slice(c) {
                samples.iter_mut().for_each(|b| *b = 0);
            }
        }
    }
}

impl FilterVideoSource for TestFilter {
    fn filter_video(&mut self, video: &mut VideoDataSourceContext<'_>) {
        video.data_buffer_mut(0).iter_mut().for_each(|b| *b = 255 - *b);
    }
}

#[test]
fn source_flag_values() {
    assert_eq!(OBS_SOURCE_VIDEO, 1);
    assert_eq!(OBS_SOURCE_AUDIO, 2);
    assert_eq!(OBS_SOURCE_ASYNC_VIDEO, 5);
    assert_eq!(OBS_SOURCE_INTERACTION, 32);
    assert_eq!(OBS_SOURCE_CONTROLLABLE_MEDIA, 8192);
}

#[test]
fn build_without_callbacks_has_no_flags() {
    let info = SourceInfoBuilder::<TestSource>::new().build();
    assert_eq!(info.id, "test_source");
    assert_eq!(info.source_type, SourceType::Input);
    assert_eq!(info.icon, Icon::Unknown);
    assert_eq!(info.output_flags, 0);
    assert!(!info.callbacks.get_name);
}

#[test]
fn build_derives_flags_from_callbacks() {
    let info = SourceInfoBuilder::<TestSource>::new()
        .enable_get_name()
        .enable_video_render()
        .enable_focus()
        .enable_media_play_pause()
        .enable_media_get_state()
        .build();
    assert_eq!(
        info.output_flags,
        OBS_SOURCE_VIDEO | OBS_SOURCE_INTERACTION | OBS_SOURCE_CONTROLLABLE_MEDIA
    );
    assert!(info.callbacks.get_name);
    assert!(info.callbacks.video_render);
    assert!(info.callbacks.focus);
    assert!(!info.callbacks.audio_render);
}

#[test]
fn audio_filter_sets_audio_flag() {
    let info = SourceInfoBuilder::<TestFilter>::new()
        .enable_filter_audio()
        .enable_filter_video()
        .build();
    assert_eq!(info.output_flags, OBS_SOURCE_AUDIO);
    assert!(info.callbacks.filter_audio);
    assert!(info.callbacks.filter_video);
    assert_eq!(info.source_type, SourceType::Filter);
}

#[test]
fn async_flags_and_icon_are_kept() {
    let info = SourceInfoBuilder::<TestSource>::new()
        .enable_async_video()
        .enable_async_audio()
        .with_icon(Icon::Camera)
        .enable_video_render()
        .build();
    assert_eq!(info.output_flags, OBS_SOURCE_ASYNC_VIDEO | OBS_SOURCE_AUDIO | OBS_SOURCE_VIDEO);
    assert_eq!(info.icon, Icon::Camera);
}

#[test]
fn set_icon_changes_only_icon() {
    let mut info = SourceInfoBuilder::<TestSource>::new().enable_get_name().build();
    let flags = info.output_flags;
    info.set_icon(Icon::Text);
    assert_eq!(info.icon, Icon::Text);
    assert_eq!(info.output_flags, flags);
    assert!(info.callbacks.get_name);
}

#[test]
fn media_traits_roundtrip_through_state() {
    let mut s = TestSource { paused: false };
    s.play_pause(true);
    assert_eq!(s.get_state(), MediaState::Paused);
}

#[test]
fn source_enum_raw_values() {
    assert_eq!(SourceType::Input.as_raw(), 0);
    assert_eq!(SourceType::Filter.as_raw(), 1);
    assert_eq!(SourceType::Transition.as_raw(), 2);
    assert_eq!(SourceType::Scene.as_raw(), 3);
    assert_eq!(SourceType::from_raw(3), Ok(SourceType::Scene));
    assert_eq!(SourceType::from_raw(4).unwrap_err().raw, 4);
    assert_eq!(MouseButton::Left.as_raw(), 0);
    assert_eq!(MouseButton::from_raw(2), Ok(MouseButton::Right));
    assert_eq!(MouseButton::from_raw(3).unwrap_err().raw, 3);
    assert_eq!(Icon::AudioInput.as_raw(), 4);
    assert_eq!(Icon::from_raw(0), Ok(Icon::Unknown));
    assert_eq!(Icon::from_raw(99).unwrap_err().raw, 99);
}

#[test]
fn push_enum_raw_values() {
    assert_eq!(AudioFormat::U8Bit.as_raw(), 1);
    assert_eq!(AudioFormat::FloatPlanar.as_raw(), 8);
    assert_eq!(AudioFormat::from_raw(4), Ok(AudioFormat::Float));
    assert_eq!(AudioFormat::from_raw(0).unwrap_err().raw, 0);
    assert_eq!(Speakers::Stereo.as_raw(), 2);
    assert_eq!(Speakers::SevenPoint1.as_raw(), 8);
    assert_eq!(Speakers::from_raw(6), Ok(Speakers::FivePoint1));
    assert_eq!(Speakers::from_raw(7).unwrap_err().raw, 7);
}

#[test]
fn video_frame_builder() {
    let y = [0u8; 16];
    let uv = [128u8; 8];
    let frame = SourceVideoFrame::new(VideoFormat::NV12, 4, 4, 1000)
        .with_plane(0, &y, 4)
        .with_plane(1, &uv, 4)
        .with_flip(true)
        .with_full_range(true);
    assert_eq!(frame.format, VideoFormat::NV12);
    assert_eq!((frame.width, frame.height, frame.timestamp_ns), (4, 4, 1000));
    assert_eq!(frame.planes[0].data, &y[..]);
    assert_eq!(frame.planes[0].linesize, 4);
    assert_eq!(frame.planes[1].data, &uv[..]);
    assert_eq!(frame.planes[2].data.len(), 0);
    assert_eq!(frame.planes[2].linesize, 0);
    assert!(frame.flip);
    assert!(frame.full_range);
    let p = Plane::default();
    assert_eq!(p.data.len(), 0);
    assert_eq!(p.linesize, 0);
}

#[test]
fn audio_buffer_builder() {
    let left = [1u8; 8];
    let audio = SourceAudio::new(AudioFormat::FloatPlanar, Speakers::Stereo, 48000, 2, 9)
        .with_plane(0, &left);
    assert_eq!(audio.format, AudioFormat::FloatPlanar);
    assert_eq!(audio.speakers, Speakers::Stereo);
    assert_eq!(audio.samples_per_sec, 48000);
    assert_eq!(audio.frames, 2);
    assert_eq!(audio.timestamp_ns, 9);
    assert_eq!(audio.planes[0], &left[..]);
    assert_eq!(audio.planes[1].len(), 0);
}

#[test]
fn filters_rewrite_buffers_in_place() {
    let mut left = [1u8, 2, 3, 4];
    let mut right = [5u8, 6, 7, 8];
    {
        let mut audio = AudioDataContext::from_raw(vec![&mut left[..], &mut right[..]], 1);
        TestFilter.filter_audio(&mut audio);
    }
    assert_eq!(left, [0; 4]);
    assert_eq!(right, [0; 4]);

    let mut y = [0u8, 10, 255];
    {
        let mut video = VideoDataSourceContext::from_raw(
            vec![&mut y[..]],
            [3, 0, 0, 0, 0, 0, 0, 0],
            3,
            1,
            0,
            VideoFormat::Y800.as_raw(),
        );
        TestFilter.filter_video(&mut video);
    }
    assert_eq!(y, [255, 245, 0]);
}

#[test]
fn push_raw_fields_and_async_flags() {
    let y = [0u8; 4];
    let frame = SourceVideoFrame::new(VideoFormat::Y800, 2, 2, 77).with_plane(0, &y, 2).with_flip(true);
    let raw = frame.raw_fields();
    assert_eq!(raw.linesize, [2, 0, 0, 0, 0, 0, 0, 0]);
    assert_eq!((raw.width, raw.height, raw.timestamp), (2, 2, 77));
    assert_eq!(raw.format, VideoFormat::Y800.as_raw());
    assert!(raw.flip && !raw.full_range);
    let audio = SourceAudio::new(AudioFormat::Bit16, Speakers::Mono, 44100, 10, 5);
    let a = audio.raw_fields();
    assert_eq!(a.frames, 10);
    assert_eq!(a.speakers, Speakers::Mono.as_raw());
    assert_eq!(a.format, AudioFormat::Bit16.as_raw());
    assert_eq!((a.samples_per_sec, a.timestamp), (44100, 5));
    assert!(accepts_async_video(OBS_SOURCE_ASYNC_VIDEO | OBS_SOURCE_AUDIO));
    assert!(!accepts_async_video(OBS_SOURCE_VIDEO));
    assert!(!accepts_async_video(4));
    assert!(accepts_async_audio(OBS_SOURCE_AUDIO));
    assert!(!accepts_async_audio(OBS_SOURCE_ASYNC_VIDEO & !OBS_SOURCE_AUDIO));
}

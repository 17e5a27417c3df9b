use obs_rs::media::audio::{AudioDataContext, AudioDataOutputContext};
use obs_rs::media::state::MediaState;
use obs_rs::media::video::{
    FrameSize, VideoDataOutputContext, VideoDataSourceContext, VideoFormat, VideoInfo,
};

fn info(width: u32, height: u32, format: Option<VideoFormat>) -> VideoInfo {
    VideoInfo { width, height, format }
}

#[test]
fn frame_size_unknown_format() {
    assert_eq!(info(4, 4, None).frame_size(), FrameSize::Unknown);
}

#[test]
fn frame_size_no_format_is_unknown() {
    assert_eq!(
        info(4, 4, Some(VideoFormat::NoFormat)).frame_size(),
        FrameSize::Unknown
    );
}

#[test]
fn frame_size_i420_rounds_chroma_up() {
    // 5x3: full 15, quarter ceil(5/2)*ceil(3/2) = 3*2 = 6
    assert_eq!(
        info(5, 3, Some(VideoFormat::I420)).frame_size(),
        FrameSize::ThreePlane(15, 6, 6)
    );
    assert_eq!(
        info(1920, 1080, Some(VideoFormat::I420)).frame_size(),
        FrameSize::ThreePlane(2073600, 518400, 518400)
    );
}

#[test]
fn frame_size_nv12() {
    // quarter = ceil(5/2)*ceil(3/2) = 6, interleaved chroma plane = 12
    assert_eq!(
        info(5, 3, Some(VideoFormat::NV12)).frame_size(),
        FrameSize::TwoPlane(15, 12)
    );
    assert_eq!(
        info(4, 4, Some(VideoFormat::NV12)).frame_size(),
        FrameSize::TwoPlane(16, 8)
    );
}

#[test]
fn frame_size_packed_formats() {
    assert_eq!(info(5, 3, Some(VideoFormat::Y800)).frame_size(), FrameSize::OnePlane(15));
    assert_eq!(info(5, 3, Some(VideoFormat::YUY2)).frame_size(), FrameSize::OnePlane(36));
    assert_eq!(info(5, 3, Some(VideoFormat::UYVY)).frame_size(), FrameSize::OnePlane(36));
    assert_eq!(info(5, 3, Some(VideoFormat::YVYU)).frame_size(), FrameSize::OnePlane(36));
    assert_eq!(info(5, 3, Some(VideoFormat::RGBA)).frame_size(), FrameSize::OnePlane(60));
    assert_eq!(info(5, 3, Some(VideoFormat::BGRA)).frame_size(), FrameSize::OnePlane(60));
    assert_eq!(info(5, 3, Some(VideoFormat::BGRX)).frame_size(), FrameSize::OnePlane(60));
    assert_eq!(info(5, 3, Some(VideoFormat::AYUV)).frame_size(), FrameSize::OnePlane(60));
    assert_eq!(info(5, 3, Some(VideoFormat::BGR3)).frame_size(), FrameSize::OnePlane(45));
}

#[test]
fn frame_size_planar_formats() {
    assert_eq!(
        info(5, 3, Some(VideoFormat::I444)).frame_size(),
        FrameSize::Planes { size: 15, count: 3 }
    );
    assert_eq!(
        info(5, 3, Some(VideoFormat::I412)).frame_size(),
        FrameSize::Planes { size: 30, count: 3 }
    );
    assert_eq!(
        info(5, 3, Some(VideoFormat::I422)).frame_size(),
        FrameSize::ThreePlane(15, 9, 9)
    );
    assert_eq!(
        info(5, 3, Some(VideoFormat::I210)).frame_size(),
        FrameSize::ThreePlane(30, 18, 18)
    );
    assert_eq!(
        info(5, 3, Some(VideoFormat::I40A)).frame_size(),
        FrameSize::FourPlane(15, 6, 6, 15)
    );
    assert_eq!(
        info(5, 3, Some(VideoFormat::I42A)).frame_size(),
        FrameSize::FourPlane(15, 9, 9, 15)
    );
    assert_eq!(
        info(5, 3, Some(VideoFormat::YUVA)).frame_size(),
        FrameSize::Planes { size: 15, count: 4 }
    );
    assert_eq!(
        info(5, 3, Some(VideoFormat::YA2L)).frame_size(),
        FrameSize::Planes { size: 30, count: 4 }
    );
    assert_eq!(
        info(5, 3, Some(VideoFormat::I010)).frame_size(),
        FrameSize::ThreePlane(30, 12, 12)
    );
    assert_eq!(
        info(5, 3, Some(VideoFormat::P010)).frame_size(),
        FrameSize::TwoPlane(30, 24)
    );
}

#[test]
fn frame_size_zero_dimensions() {
    assert_eq!(
        info(0, 0, Some(VideoFormat::I420)).frame_size(),
        FrameSize::ThreePlane(0, 0, 0)
    );
}

#[test]
fn video_format_raw_values() {
    assert_eq!(VideoFormat::NoFormat.as_raw(), 0);
    assert_eq!(VideoFormat::I420.as_raw(), 1);
    assert_eq!(VideoFormat::NV12.as_raw(), 2);
    assert_eq!(VideoFormat::RGBA.as_raw(), 6);
    assert_eq!(VideoFormat::from_raw(7), Ok(VideoFormat::BGRA));
    assert_eq!(VideoFormat::from_raw(VideoFormat::P010.as_raw()), Ok(VideoFormat::P010));
    let err = VideoFormat::from_raw(9999).unwrap_err();
    assert_eq!(err.raw, 9999);
}

#[test]
fn media_state_raw_values() {
    assert_eq!(MediaState::NoMedia.as_raw(), 0);
    assert_eq!(MediaState::Error.as_raw(), 7);
    assert_eq!(MediaState::from_raw(4), Ok(MediaState::Paused));
    assert_eq!(MediaState::from_raw(8).unwrap_err().raw, 8);
}

#[test]
fn audio_context_channels_and_frames() {
    let mut left = [1u8, 2, 3, 4];
    let mut right = [5u8, 6, 7, 8];
    let mut ctx = AudioDataContext::from_raw(vec![&mut left[..], &mut right[..]], 1);
    assert_eq!(ctx.frames(), 1);
    assert_eq!(ctx.channels(), 2);
    assert_eq!(ctx.get_channel_as_mut_slice(1).map(|s| s.to_vec()), Some(vec![5, 6, 7, 8]));
    assert!(ctx.get_channel_as_mut_slice(2).is_none());
    if let Some(ch) = ctx.get_channel_as_mut_slice(0) {
        ch[0] = 42;
    }
    assert_eq!(ctx.get_channel_as_mut_slice(0).map(|s| s[0]), Some(42));
    drop(ctx);
    assert_eq!(left, [42, 2, 3, 4]);
}

#[test]
fn audio_output_context_reads_back() {
    let data = [9u8; 4];
    let empty: &[u8] = &[];
    let ctx = AudioDataOutputContext::from_raw(
        [&data, empty, empty, empty, empty, empty, empty, empty],
        1,
        42,
    );
    assert_eq!(ctx.data_buffer(0), &data[..]);
    assert_eq!(ctx.frames(), 1);
    assert_eq!(ctx.timestamp(), 42);
}

#[test]
fn video_contexts_read_back() {
    let mut y = [1u8; 6];
    let mut empties: Vec<[u8; 0]> = vec![[]; 7];
    let mut planes: Vec<&mut [u8]> = vec![&mut y[..]];
    for e in empties.iter_mut() {
        planes.push(&mut e[..]);
    }
    let mut src = VideoDataSourceContext::from_raw(
        planes,
        [3, 0, 0, 0, 0, 0, 0, 0],
        3,
        2,
        77,
        VideoFormat::Y800.as_raw(),
    );
    assert_eq!(src.format(), Some(VideoFormat::Y800));
    assert_eq!(src.width(), 3);
    assert_eq!(src.height(), 2);
    assert_eq!(src.data_buffer(0), &[1u8; 6][..]);
    assert_eq!(src.data_buffer(7).len(), 0);
    assert_eq!(src.linesize(0), 3);
    assert_eq!(src.timestamp(), 77);
    src.data_buffer_mut(0)[5] = 9;
    assert_eq!(src.data_buffer(0), &[1, 1, 1, 1, 1, 9][..]);
    drop(src);
    assert_eq!(y, [1, 1, 1, 1, 1, 9]);

    let unknown = VideoDataSourceContext::from_raw(Vec::new(), [0; 8], 0, 0, 0, 1000);
    assert_eq!(unknown.format(), None);

    let z = [1u8; 6];
    let empty: &[u8] = &[];
    let out = VideoDataOutputContext::from_raw(
        [&z, empty, empty, empty, empty, empty, empty, empty],
        [3, 0, 0, 0, 0, 0, 0, 0],
        5,
    );
    assert_eq!(out.data_buffer(0), &z[..]);
    assert_eq!(out.linesize(0), 3);
    assert_eq!(out.timestamp(), 5);
}

#[test]
fn video_info_from_raw_format() {
    let v = VideoInfo::from_raw(1280, 720, VideoFormat::NV12.as_raw());
    assert_eq!(v, VideoInfo { width: 1280, height: 720, format: Some(VideoFormat::NV12) });
    assert_eq!(VideoInfo::from_raw(2, 2, 4242).format, None);
    assert_eq!(VideoInfo::from_raw(2, 2, 4242).frame_size(), FrameSize::Unknown);
}

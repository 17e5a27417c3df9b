//! Video pixel formats and per-format frame layouts.

use vstd::prelude::*;

use crate::native::UnknownNativeValue;

verus! {

/// Pixel layout of a video frame, mirroring libobs's `video_format`.
///
/// The raw value of each variant is its position in libobs's enumeration.
#[derive(Debug, Clone, Copy, PartialEq, Eq, Structural)]
pub enum VideoFormat {
    /// no pixel format (libobs `VIDEO_FORMAT_NONE`)
    NoFormat,
    /// planar 4:2:0 formats, three-plane
    I420,
    /// planar 4:2:0 formats, two-plane, luma and packed chroma
    NV12,
    /// packed 4:2:2 formats
    YVYU,
    /// packed 4:2:2 formats, YUYV
    YUY2,
    /// packed 4:2:2 formats
    UYVY,
    /// packed uncompressed formats
    RGBA,
    /// packed uncompressed formats
    BGRA,
    /// packed uncompressed formats
    BGRX,
    /// packed uncompressed formats, grayscale
    Y800,
    /// planar 4:4:4
    I444,
    /// more packed uncompressed formats
    BGR3,
    /// planar 4:2:2
    I422,
    /// planar 4:2:0 with alpha
    I40A,
    /// planar 4:2:2 with alpha
    I42A,
    /// planar 4:4:4 with alpha
    YUVA,
    /// packed 4:4:4 with alpha
    AYUV,
    /// planar 4:2:0 format, 10 bpp, three-plane
    I010,
    /// planar 4:2:0 format, 10 bpp, two-plane, luma and packed chroma
    P010,
    /// planar 4:2:2 10 bits, Little Endian
    I210,
    /// planar 4:4:4 12 bits, Little Endian
    I412,
    /// planar 4:4:4 12 bits with alpha, Little Endian
    YA2L,
}

impl VideoFormat {
    /// The libobs enumerant of this format.
    pub open spec fn spec_raw(self) -> u32 {
        match self {
            VideoFormat::NoFormat => 0,
            VideoFormat::I420 => 1,
            VideoFormat::NV12 => 2,
            VideoFormat::YVYU => 3,
            VideoFormat::YUY2 => 4,
            VideoFormat::UYVY => 5,
            VideoFormat::RGBA => 6,
            VideoFormat::BGRA => 7,
            VideoFormat::BGRX => 8,
            VideoFormat::Y800 => 9,
            VideoFormat::I444 => 10,
            VideoFormat::BGR3 => 11,
            VideoFormat::I422 => 12,
            VideoFormat::I40A => 13,
            VideoFormat::I42A => 14,
            VideoFormat::YUVA => 15,
            VideoFormat::AYUV => 16,
            VideoFormat::I010 => 17,
            VideoFormat::P010 => 18,
            VideoFormat::I210 => 19,
            VideoFormat::I412 => 20,
            VideoFormat::YA2L => 21,
        }
    }

    /// The format whose enumerant is `raw`, if there is one.
    pub open spec fn spec_from_raw(raw: u32) -> Option<VideoFormat> {
        if raw == 0 { Some(VideoFormat::NoFormat) }
        else if raw == 1 { Some(VideoFormat::I420) }
        else if raw == 2 { Some(VideoFormat::NV12) }
        else if raw == 3 { Some(VideoFormat::YVYU) }
        else if raw == 4 { Some(VideoFormat::YUY2) }
        else if raw == 5 { Some(VideoFormat::UYVY) }
        else if raw == 6 { Some(VideoFormat::RGBA) }
        else if raw == 7 { Some(VideoFormat::BGRA) }
        else if raw == 8 { Some(VideoFormat::BGRX) }
        else if raw == 9 { Some(VideoFormat::Y800) }
        else if raw == 10 { Some(VideoFormat::I444) }
        else if raw == 11 { Some(VideoFormat::BGR3) }
        else if raw == 12 { Some(VideoFormat::I422) }
        else if raw == 13 { Some(VideoFormat::I40A) }
        else if raw == 14 { Some(VideoFormat::I42A) }
        else if raw == 15 { Some(VideoFormat::YUVA) }
        else if raw == 16 { Some(VideoFormat::AYUV) }
        else if raw == 17 { Some(VideoFormat::I010) }
        else if raw == 18 { Some(VideoFormat::P010) }
        else if raw == 19 { Some(VideoFormat::I210) }
        else if raw == 20 { Some(VideoFormat::I412) }
        else if raw == 21 { Some(VideoFormat::YA2L) }
        else { None }
    }

    /// Converts to the underlying libobs enumerant.
    pub fn as_raw(self) -> (r: u32)
        ensures
            r == self.spec_raw(),
    {
        match self {
            VideoFormat::NoFormat => 0,
            VideoFormat::I420 => 1,
            VideoFormat::NV12 => 2,
            VideoFormat::YVYU => 3,
            VideoFormat::YUY2 => 4,
            VideoFormat::UYVY => 5,
            VideoFormat::RGBA => 6,
            VideoFormat::BGRA => 7,
            VideoFormat::BGRX => 8,
            VideoFormat::Y800 => 9,
            VideoFormat::I444 => 10,
            VideoFormat::BGR3 => 11,
            VideoFormat::I422 => 12,
            VideoFormat::I40A => 13,
            VideoFormat::I42A => 14,
            VideoFormat::YUVA => 15,
            VideoFormat::AYUV => 16,
            VideoFormat::I010 => 17,
            VideoFormat::P010 => 18,
            VideoFormat::I210 => 19,
            VideoFormat::I412 => 20,
            VideoFormat::YA2L => 21,
        }
    }

    /// Maps a libobs enumerant to a format; unknown values are returned
    /// in the error.
    pub fn from_raw(raw: u32) -> (r: Result<VideoFormat, UnknownNativeValue>)
        ensures
            match r {
                Ok(f) => Self::spec_from_raw(raw) == Some(f),
                Err(e) => Self::spec_from_raw(raw) is None && e.raw == raw,
            },
    {
        match raw {
            0 => Ok(VideoFormat::NoFormat),
            1 => Ok(VideoFormat::I420),
            2 => Ok(VideoFormat::NV12),
            3 => Ok(VideoFormat::YVYU),
            4 => Ok(VideoFormat::YUY2),
            5 => Ok(VideoFormat::UYVY),
            6 => Ok(VideoFormat::RGBA),
            7 => Ok(VideoFormat::BGRA),
            8 => Ok(VideoFormat::BGRX),
            9 => Ok(VideoFormat::Y800),
            10 => Ok(VideoFormat::I444),
            11 => Ok(VideoFormat::BGR3),
            12 => Ok(VideoFormat::I422),
            13 => Ok(VideoFormat::I40A),
            14 => Ok(VideoFormat::I42A),
            15 => Ok(VideoFormat::YUVA),
            16 => Ok(VideoFormat::AYUV),
            17 => Ok(VideoFormat::I010),
            18 => Ok(VideoFormat::P010),
            19 => Ok(VideoFormat::I210),
            20 => Ok(VideoFormat::I412),
            21 => Ok(VideoFormat::YA2L),
            _ => Err(UnknownNativeValue { raw }),
        }
    }
}

/// Converting a format to its enumerant and back gives the same format, and
/// an enumerant that names a format is that format's enumerant.
pub proof fn lemma_video_format_raw_roundtrip(f: VideoFormat, raw: u32)
    ensures
        VideoFormat::spec_from_raw(f.spec_raw()) == Some(f),
        VideoFormat::spec_from_raw(raw) matches Some(g) ==> g.spec_raw() == raw,
{
}

/// Per-format description of a video frame's plane layout.
///
/// Returned by [`VideoInfo::frame_size`]; used by callers that need to
/// allocate or size buffers for a frame in a specific [`VideoFormat`].
#[derive(Debug, Clone, Copy, PartialEq, Eq, Structural)]
pub enum FrameSize {
    /// The format is unknown or has zero planes.
    Unknown,
    /// `count` planes, each of `size` bytes.
    Planes { size: usize, count: usize },
    /// A single plane of the given size.
    OnePlane(usize),
    /// Two planes of the given sizes.
    TwoPlane(usize, usize),
    /// Three planes of the given sizes.
    ThreePlane(usize, usize, usize),
    /// Four planes of the given sizes.
    FourPlane(usize, usize, usize, usize),
}

/// Owned snapshot of the parts of a video output's configuration that
/// determine its frame layout.
#[derive(Debug, Clone, Copy, PartialEq, Eq, Structural)]
pub struct VideoInfo {
    /// Frame width in pixels.
    pub width: u32,
    /// Frame height in pixels.
    pub height: u32,
    /// Pixel format, or `None` if libobs reports an unknown value.
    pub format: Option<VideoFormat>,
}

/// Half of `n`, rounded up.
pub open spec fn half_up(n: int) -> int {
    n / 2 + n % 2
}

impl VideoInfo {
    /// Bytes in a full-resolution plane of one byte per pixel.
    pub open spec fn full_size(self) -> int {
        self.width * self.height
    }

    /// Bytes in a plane subsampled horizontally by two.
    pub open spec fn half_size(self) -> int {
        half_up(self.width as int) * self.height
    }

    /// Bytes in a plane subsampled by two in both directions.
    pub open spec fn quarter_size(self) -> int {
        half_up(self.width as int) * half_up(self.height as int)
    }

    /// The largest product that computing this layout forms; it fits in a
    /// `usize` exactly when [`VideoInfo::frame_size`] can run.
    pub open spec fn layout_fits(self) -> bool {
        let full = self.full_size();
        let half = self.half_size();
        let quarter = self.quarter_size();
        &&& full <= usize::MAX
        &&& half <= usize::MAX
        &&& quarter <= usize::MAX
        &&& match self.format {
            Some(VideoFormat::NV12) => quarter * 2 <= usize::MAX,
            Some(VideoFormat::YVYU) | Some(VideoFormat::UYVY) | Some(VideoFormat::YUY2) =>
                half * 4 <= usize::MAX,
            Some(VideoFormat::BGRX) | Some(VideoFormat::BGRA) | Some(VideoFormat::RGBA) | Some(
                VideoFormat::AYUV,
            ) => full * 4 <= usize::MAX,
            Some(VideoFormat::I412) | Some(VideoFormat::YA2L) => full * 2 <= usize::MAX,
            Some(VideoFormat::BGR3) => full * 3 <= usize::MAX,
            Some(VideoFormat::I210) => full * 2 <= usize::MAX && half * 2 <= usize::MAX,
            Some(VideoFormat::I010) => full * 2 <= usize::MAX && quarter * 2 <= usize::MAX,
            Some(VideoFormat::P010) => full * 2 <= usize::MAX && quarter * 4 <= usize::MAX,
            _ => true,
        }
    }

    /// The plane layout of a frame with this configuration.
    pub open spec fn spec_frame_size(self) -> FrameSize {
        let full = self.full_size();
        let half = self.half_size();
        let quarter = self.quarter_size();
        match self.format {
            None => FrameSize::Unknown,
            Some(f) => match f {
                VideoFormat::NoFormat => FrameSize::Unknown,
                VideoFormat::I420 => FrameSize::ThreePlane(
                    full as usize,
                    quarter as usize,
                    quarter as usize,
                ),
                VideoFormat::NV12 => FrameSize::TwoPlane(full as usize, (quarter * 2) as usize),
                VideoFormat::Y800 => FrameSize::OnePlane(full as usize),
                VideoFormat::YVYU | VideoFormat::UYVY | VideoFormat::YUY2 => FrameSize::OnePlane(
                    (half * 4) as usize,
                ),
                VideoFormat::BGRX | VideoFormat::BGRA | VideoFormat::RGBA | VideoFormat::AYUV =>
                    FrameSize::OnePlane((full * 4) as usize),
                VideoFormat::I444 => FrameSize::Planes { count: 3, size: full as usize },
                VideoFormat::I412 => FrameSize::Planes { count: 3, size: (full * 2) as usize },
                VideoFormat::BGR3 => FrameSize::OnePlane((full * 3) as usize),
                VideoFormat::I422 => FrameSize::ThreePlane(
                    full as usize,
                    half as usize,
                    half as usize,
                ),
                VideoFormat::I210 => FrameSize::ThreePlane(
                    (full * 2) as usize,
                    (half * 2) as usize,
                    (half * 2) as usize,
                ),
                VideoFormat::I40A => FrameSize::FourPlane(
                    full as usize,
                    quarter as usize,
                    quarter as usize,
                    full as usize,
                ),
                VideoFormat::I42A => FrameSize::FourPlane(
                    full as usize,
                    half as usize,
                    half as usize,
                    full as usize,
                ),
                VideoFormat::YUVA => FrameSize::Planes { count: 4, size: full as usize },
                VideoFormat::YA2L => FrameSize::Planes { count: 4, size: (full * 2) as usize },
                VideoFormat::I010 => FrameSize::ThreePlane(
                    (full * 2) as usize,
                    (quarter * 2) as usize,
                    (quarter * 2) as usize,
                ),
                VideoFormat::P010 => FrameSize::TwoPlane(
                    (full * 2) as usize,
                    (quarter * 4) as usize,
                ),
            },
        }
    }

    /// The snapshot of a video output whose size is `width` x `height` and
    /// whose libobs `video_format` enumerant is `format`; an enumerant the
    /// library does not name gives no format.
    pub fn from_raw(width: u32, height: u32, format: u32) -> (r: Self)
        ensures
            r.width == width,
            r.height == height,
            r.format == VideoFormat::spec_from_raw(format),
    {
        let format = match VideoFormat::from_raw(format) {
            Ok(f) => Some(f),
            Err(_) => None,
        };
        VideoInfo { width, height, format }
    }

    /// Returns the per-plane buffer size for this video configuration,
    /// following libobs's `video-frame.c` layout formulae.
    pub fn frame_size(&self) -> (r: FrameSize)
        requires
            self.layout_fits(),
        ensures
            r == self.spec_frame_size(),
    {
        let width = self.width as usize;
        let height = self.height as usize;
        let half_width = width / 2 + width % 2;
        let half_height = height / 2 + height % 2;
        let full_size = width * height;
        let half_size = half_width * height;
        let quarter_size = half_width * half_height;
        let format = match self.format {
            Some(f) => f,
            None => {
                return FrameSize::Unknown;
            },
        };
        match format {
            VideoFormat::NoFormat => FrameSize::Unknown,
            VideoFormat::I420 => FrameSize::ThreePlane(full_size, quarter_size, quarter_size),
            VideoFormat::NV12 => FrameSize::TwoPlane(full_size, quarter_size * 2),
            VideoFormat::Y800 => FrameSize::OnePlane(full_size),
            VideoFormat::YVYU | VideoFormat::UYVY | VideoFormat::YUY2 => FrameSize::OnePlane(
                half_size * 4,
            ),
            VideoFormat::BGRX | VideoFormat::BGRA | VideoFormat::RGBA | VideoFormat::AYUV =>
                FrameSize::OnePlane(full_size * 4),
            VideoFormat::I444 => FrameSize::Planes { count: 3, size: full_size },
            VideoFormat::I412 => FrameSize::Planes { count: 3, size: full_size * 2 },
            VideoFormat::BGR3 => FrameSize::OnePlane(full_size * 3),
            VideoFormat::I422 => FrameSize::ThreePlane(full_size, half_size, half_size),
            VideoFormat::I210 => FrameSize::ThreePlane(
                full_size * 2,
                half_size * 2,
                half_size * 2,
            ),
            VideoFormat::I40A => FrameSize::FourPlane(
                full_size,
                quarter_size,
                quarter_size,
                full_size,
            ),
            VideoFormat::I42A => FrameSize::FourPlane(full_size, half_size, half_size, full_size),
            VideoFormat::YUVA => FrameSize::Planes { count: 4, size: full_size },
            VideoFormat::YA2L => FrameSize::Planes { count: 4, size: full_size * 2 },
            VideoFormat::I010 => FrameSize::ThreePlane(
                full_size * 2,
                quarter_size * 2,
                quarter_size * 2,
            ),
            VideoFormat::P010 => FrameSize::TwoPlane(full_size * 2, quarter_size * 4),
        }
    }
}


/// A video frame flowing through a source's filter callback, whose planes
/// a filter may rewrite in place.
pub struct VideoDataSourceContext<'a> {
    data: Vec<&'a mut [u8]>,
    linesize: [u32; 8],
    width: u32,
    height: u32,
    timestamp: u64,
    format: u32,
}

impl<'a> VideoDataSourceContext<'a> {
    /// The bytes of each plane.
    pub closed spec fn spec_data(&self) -> Seq<Seq<u8>> {
        self.data@.map_values(|s: &'a mut [u8]| s@)
    }

    /// The row strides.
    pub closed spec fn spec_linesize(&self) -> Seq<u32> {
        self.linesize@
    }

    /// Frame width in pixels.
    pub closed spec fn spec_width(&self) -> u32 {
        self.width
    }

    /// Frame height in pixels.
    pub closed spec fn spec_height(&self) -> u32 {
        self.height
    }

    /// Presentation timestamp, in nanoseconds.
    pub closed spec fn spec_timestamp(&self) -> u64 {
        self.timestamp
    }

    /// libobs's `video_format` enumerant of the frame.
    pub closed spec fn spec_format_raw(&self) -> u32 {
        self.format
    }

    /// A frame with the given planes (libobs hands over eight), strides,
    /// size, timestamp and raw pixel format.
    pub fn from_raw(
        data: Vec<&'a mut [u8]>,
        linesize: [u32; 8],
        width: u32,
        height: u32,
        timestamp: u64,
        format: u32,
    ) -> (r: Self)
        ensures
            r.spec_data() == data@.map_values(|s: &'a mut [u8]| s@),
            r.spec_linesize() == linesize@,
            r.spec_width() == width,
            r.spec_height() == height,
            r.spec_timestamp() == timestamp,
            r.spec_format_raw() == format,
    {
        VideoDataSourceContext { data, linesize, width, height, timestamp, format }
    }

    /// Returns the frame's pixel format, or `None` if libobs reports an
    /// unknown value.
    pub fn format(&self) -> (r: Option<VideoFormat>)
        ensures
            r == VideoFormat::spec_from_raw(self.spec_format_raw()),
    {
        match VideoFormat::from_raw(self.format) {
            Ok(f) => Some(f),
            Err(_) => None,
        }
    }

    /// Returns the frame width in pixels.
    pub fn width(&self) -> (r: u32)
        ensures
            r == self.spec_width(),
    {
        self.width
    }

    /// Returns the frame height in pixels.
    pub fn height(&self) -> (r: u32)
        ensures
            r == self.spec_height(),
    {
        self.height
    }

    /// Returns plane `idx`.
    pub fn data_buffer(&self, idx: usize) -> (r: &[u8])
        requires
            idx < self.spec_data().len(),
        ensures
            r@ == self.spec_data()[idx as int],
    {
        &*self.data[idx]
    }

    /// Returns plane `idx` for in-place rewriting; what is written is what
    /// the rest of the filter chain sees.
    pub fn data_buffer_mut(&mut self, idx: usize) -> (r: &mut [u8])
        requires
            idx < old(self).spec_data().len(),
        ensures
            r@ == old(self).spec_data()[idx as int],
            final(self).spec_data() == old(self).spec_data().update(idx as int, final(r)@),
            final(self).spec_linesize() == old(self).spec_linesize(),
            final(self).spec_width() == old(self).spec_width(),
            final(self).spec_height() == old(self).spec_height(),
            final(self).spec_timestamp() == old(self).spec_timestamp(),
            final(self).spec_format_raw() == old(self).spec_format_raw(),
    {
        &mut *self.data[idx]
    }

    /// Returns the row stride in bytes for plane `idx`.
    pub fn linesize(&self, idx: usize) -> (r: u32)
        requires
            idx < 8,
        ensures
            r == self.spec_linesize()[idx as int],
    {
        self.linesize[idx]
    }

    /// Returns the frame's presentation timestamp, in nanoseconds.
    pub fn timestamp(&self) -> (r: u64)
        ensures
            r == self.spec_timestamp(),
    {
        self.timestamp
    }
}

/// A view of the video buffer libobs delivers to an output's raw video
/// callback.
pub struct VideoDataOutputContext<'a> {
    data: [&'a [u8]; 8],
    linesize: [u32; 8],
    timestamp: u64,
}

impl<'a> VideoDataOutputContext<'a> {
    /// The planes' bytes.
    pub closed spec fn spec_data(&self) -> Seq<&'a [u8]> {
        self.data@
    }

    /// The row strides.
    pub closed spec fn spec_linesize(&self) -> Seq<u32> {
        self.linesize@
    }

    /// Presentation timestamp, in nanoseconds.
    pub closed spec fn spec_timestamp(&self) -> u64 {
        self.timestamp
    }

    /// A buffer with the given planes, strides and timestamp.
    pub fn from_raw(data: [&'a [u8]; 8], linesize: [u32; 8], timestamp: u64) -> (r: Self)
        ensures
            r.spec_data() == data@,
            r.spec_linesize() == linesize@,
            r.spec_timestamp() == timestamp,
    {
        VideoDataOutputContext { data, linesize, timestamp }
    }

    /// Returns plane `idx`.
    pub fn data_buffer(&self, idx: usize) -> (r: &'a [u8])
        requires
            idx < 8,
        ensures
            r == self.spec_data()[idx as int],
    {
        self.data[idx]
    }

    /// Returns the row stride in bytes for plane `idx`.
    pub fn linesize(&self, idx: usize) -> (r: u32)
        requires
            idx < 8,
        ensures
            r == self.spec_linesize()[idx as int],
    {
        self.linesize[idx]
    }

    /// Returns the buffer's presentation timestamp, in nanoseconds.
    pub fn timestamp(&self) -> (r: u64)
        ensures
            r == self.spec_timestamp(),
    {
        self.timestamp
    }
}

/// The plane layout of every format, as libobs's `video-frame.c` gives it
/// for a `w` x `h` frame: `w * h` bytes for a full plane, `ceil(w/2) * h`
/// for a plane subsampled horizontally (4:2:2), `ceil(w/2) * ceil(h/2)` for
/// one subsampled both ways (4:2:0), with 16-bit formats taking twice that;
/// an unknown or absent format has no layout.
pub proof fn lemma_frame_size_layouts(info: VideoInfo)
    ensures
        ({
            let w = info.width as int;
            let h = info.height as int;
            let cw = (w + 1) / 2;
            let ch = (h + 1) / 2;
            let l = info.spec_frame_size();
            &&& info.format is None ==> l == FrameSize::Unknown
            &&& info.format == Some(VideoFormat::NoFormat) ==> l == FrameSize::Unknown
            &&& info.format == Some(VideoFormat::I420) ==> l == FrameSize::ThreePlane(
                (w * h) as usize,
                (cw * ch) as usize,
                (cw * ch) as usize,
            )
            &&& info.format == Some(VideoFormat::NV12) ==> l == FrameSize::TwoPlane(
                (w * h) as usize,
                (2 * (cw * ch)) as usize,
            )
            &&& info.format == Some(VideoFormat::Y800) ==> l == FrameSize::OnePlane((w * h) as usize)
            &&& (info.format == Some(VideoFormat::YVYU) || info.format == Some(VideoFormat::YUY2)
                || info.format == Some(VideoFormat::UYVY)) ==> l == FrameSize::OnePlane(
                (4 * (cw * h)) as usize,
            )
            &&& (info.format == Some(VideoFormat::RGBA) || info.format == Some(VideoFormat::BGRA)
                || info.format == Some(VideoFormat::BGRX) || info.format == Some(VideoFormat::AYUV))
                ==> l == FrameSize::OnePlane((4 * (w * h)) as usize)
            &&& info.format == Some(VideoFormat::BGR3) ==> l == FrameSize::OnePlane(
                (3 * (w * h)) as usize,
            )
            &&& info.format == Some(VideoFormat::I444) ==> l == FrameSize::Planes {
                size: (w * h) as usize,
                count: 3,
            }
            &&& info.format == Some(VideoFormat::I412) ==> l == FrameSize::Planes {
                size: (2 * (w * h)) as usize,
                count: 3,
            }
            &&& info.format == Some(VideoFormat::I422) ==> l == FrameSize::ThreePlane(
                (w * h) as usize,
                (cw * h) as usize,
                (cw * h) as usize,
            )
            &&& info.format == Some(VideoFormat::I210) ==> l == FrameSize::ThreePlane(
                (2 * (w * h)) as usize,
                (2 * (cw * h)) as usize,
                (2 * (cw * h)) as usize,
            )
            &&& info.format == Some(VideoFormat::I40A) ==> l == FrameSize::FourPlane(
                (w * h) as usize,
                (cw * ch) as usize,
                (cw * ch) as usize,
                (w * h) as usize,
            )
            &&& info.format == Some(VideoFormat::I42A) ==> l == FrameSize::FourPlane(
                (w * h) as usize,
                (cw * h) as usize,
                (cw * h) as usize,
                (w * h) as usize,
            )
            &&& info.format == Some(VideoFormat::YUVA) ==> l == FrameSize::Planes {
                size: (w * h) as usize,
                count: 4,
            }
            &&& info.format == Some(VideoFormat::YA2L) ==> l == FrameSize::Planes {
                size: (2 * (w * h)) as usize,
                count: 4,
            }
            &&& info.format == Some(VideoFormat::I010) ==> l == FrameSize::ThreePlane(
                (2 * (w * h)) as usize,
                (2 * (cw * ch)) as usize,
                (2 * (cw * ch)) as usize,
            )
            &&& info.format == Some(VideoFormat::P010) ==> l == FrameSize::TwoPlane(
                (2 * (w * h)) as usize,
                (4 * (cw * ch)) as usize,
            )
        }),
{
    let w = info.width as int;
    let h = info.height as int;
    assert(half_up(w) == (w + 1) / 2);
    assert(half_up(h) == (h + 1) / 2);
}

/// Each value's libobs enumerant, as libobs numbers them, and the value each of those
/// enumerants stands for.
pub proof fn lemma_video_format_numbering()
    ensures
        VideoFormat::NoFormat.spec_raw() == 0,
        VideoFormat::spec_from_raw(0) == Some(VideoFormat::NoFormat),
        VideoFormat::I420.spec_raw() == 1,
        VideoFormat::spec_from_raw(1) == Some(VideoFormat::I420),
        VideoFormat::NV12.spec_raw() == 2,
        VideoFormat::spec_from_raw(2) == Some(VideoFormat::NV12),
        VideoFormat::YVYU.spec_raw() == 3,
        VideoFormat::spec_from_raw(3) == Some(VideoFormat::YVYU),
        VideoFormat::YUY2.spec_raw() == 4,
        VideoFormat::spec_from_raw(4) == Some(VideoFormat::YUY2),
        VideoFormat::UYVY.spec_raw() == 5,
        VideoFormat::spec_from_raw(5) == Some(VideoFormat::UYVY),
        VideoFormat::RGBA.spec_raw() == 6,
        VideoFormat::spec_from_raw(6) == Some(VideoFormat::RGBA),
        VideoFormat::BGRA.spec_raw() == 7,
        VideoFormat::spec_from_raw(7) == Some(VideoFormat::BGRA),
        VideoFormat::BGRX.spec_raw() == 8,
        VideoFormat::spec_from_raw(8) == Some(VideoFormat::BGRX),
        VideoFormat::Y800.spec_raw() == 9,
        VideoFormat::spec_from_raw(9) == Some(VideoFormat::Y800),
        VideoFormat::I444.spec_raw() == 10,
        VideoFormat::spec_from_raw(10) == Some(VideoFormat::I444),
        VideoFormat::BGR3.spec_raw() == 11,
        VideoFormat::spec_from_raw(11) == Some(VideoFormat::BGR3),
        VideoFormat::I422.spec_raw() == 12,
        VideoFormat::spec_from_raw(12) == Some(VideoFormat::I422),
        VideoFormat::I40A.spec_raw() == 13,
        VideoFormat::spec_from_raw(13) == Some(VideoFormat::I40A),
        VideoFormat::I42A.spec_raw() == 14,
        VideoFormat::spec_from_raw(14) == Some(VideoFormat::I42A),
        VideoFormat::YUVA.spec_raw() == 15,
        VideoFormat::spec_from_raw(15) == Some(VideoFormat::YUVA),
        VideoFormat::AYUV.spec_raw() == 16,
        VideoFormat::spec_from_raw(16) == Some(VideoFormat::AYUV),
        VideoFormat::I010.spec_raw() == 17,
        VideoFormat::spec_from_raw(17) == Some(VideoFormat::I010),
        VideoFormat::P010.spec_raw() == 18,
        VideoFormat::spec_from_raw(18) == Some(VideoFormat::P010),
        VideoFormat::I210.spec_raw() == 19,
        VideoFormat::spec_from_raw(19) == Some(VideoFormat::I210),
        VideoFormat::I412.spec_raw() == 20,
        VideoFormat::spec_from_raw(20) == Some(VideoFormat::I412),
        VideoFormat::YA2L.spec_raw() == 21,
        VideoFormat::spec_from_raw(21) == Some(VideoFormat::YA2L),
{
}

} // verus!

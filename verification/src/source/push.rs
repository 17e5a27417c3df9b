//! Frames and audio buffers that asynchronous input sources push to OBS
//! from their own threads (e.g. a network receiver or a capture device
//! worker). OBS copies the buffers, so borrows only need to outlive the
//! push.

use vstd::prelude::*;

use crate::media::video::VideoFormat;
use crate::native::UnknownNativeValue;

verus! {

/// Sample layout of pushed audio, mirroring libobs's `audio_format`.
#[derive(Debug, Clone, Copy, PartialEq, Eq, Structural)]
pub enum AudioFormat {
    U8Bit,
    Bit16,
    Bit32,
    Float,
    U8BitPlanar,
    Bit16Planar,
    Bit32Planar,
    FloatPlanar,
}

impl AudioFormat {
    /// The libobs enumerant of this value.
    pub open spec fn spec_raw(self) -> u32 {
        match self {
            AudioFormat::U8Bit => 1,
            AudioFormat::Bit16 => 2,
            AudioFormat::Bit32 => 3,
            AudioFormat::Float => 4,
            AudioFormat::U8BitPlanar => 5,
            AudioFormat::Bit16Planar => 6,
            AudioFormat::Bit32Planar => 7,
            AudioFormat::FloatPlanar => 8,
        }
    }

    /// The value whose enumerant is `raw`, if there is one.
    pub open spec fn spec_from_raw(raw: u32) -> Option<AudioFormat> {
        if raw == 1 {
            Some(AudioFormat::U8Bit)
        } else if raw == 2 {
            Some(AudioFormat::Bit16)
        } else if raw == 3 {
            Some(AudioFormat::Bit32)
        } else if raw == 4 {
            Some(AudioFormat::Float)
        } else if raw == 5 {
            Some(AudioFormat::U8BitPlanar)
        } else if raw == 6 {
            Some(AudioFormat::Bit16Planar)
        } else if raw == 7 {
            Some(AudioFormat::Bit32Planar)
        } else if raw == 8 {
            Some(AudioFormat::FloatPlanar)
        } else {
            None
        }
    }

    /// Converts to the underlying libobs enumerant.
    pub fn as_raw(self) -> (r: u32)
        ensures
            r == self.spec_raw(),
    {
        match self {
            AudioFormat::U8Bit => 1,
            AudioFormat::Bit16 => 2,
            AudioFormat::Bit32 => 3,
            AudioFormat::Float => 4,
            AudioFormat::U8BitPlanar => 5,
            AudioFormat::Bit16Planar => 6,
            AudioFormat::Bit32Planar => 7,
            AudioFormat::FloatPlanar => 8,
        }
    }

    /// Maps a libobs enumerant to a value; unknown enumerants are returned
    /// in the error.
    pub fn from_raw(raw: u32) -> (r: Result<AudioFormat, UnknownNativeValue>)
        ensures
            match r {
                Ok(v) => Self::spec_from_raw(raw) == Some(v),
                Err(e) => Self::spec_from_raw(raw) is None && e.raw == raw,
            },
    {
        match raw {
            1 => Ok(AudioFormat::U8Bit),
            2 => Ok(AudioFormat::Bit16),
            3 => Ok(AudioFormat::Bit32),
            4 => Ok(AudioFormat::Float),
            5 => Ok(AudioFormat::U8BitPlanar),
            6 => Ok(AudioFormat::Bit16Planar),
            7 => Ok(AudioFormat::Bit32Planar),
            8 => Ok(AudioFormat::FloatPlanar),
            _ => Err(UnknownNativeValue { raw }),
        }
    }
}

/// Converting a value to its enumerant and back gives the same value, and
/// an enumerant that names a value is that value's enumerant.
pub proof fn lemma_audio_format_raw_roundtrip(v: AudioFormat, raw: u32)
    ensures
        AudioFormat::spec_from_raw(v.spec_raw()) == Some(v),
        AudioFormat::spec_from_raw(raw) matches Some(w) ==> w.spec_raw() == raw,
{
}
/// Speaker layout of pushed audio, mirroring libobs's `speaker_layout`.
#[derive(Debug, Clone, Copy, PartialEq, Eq, Structural)]
pub enum Speakers {
    Unknown,
    Mono,
    Stereo,
    TwoPoint1,
    FourPoint0,
    FourPoint1,
    FivePoint1,
    SevenPoint1,
}

impl Speakers {
    /// The libobs enumerant of this value.
    pub open spec fn spec_raw(self) -> u32 {
        match self {
            Speakers::Unknown => 0,
            Speakers::Mono => 1,
            Speakers::Stereo => 2,
            Speakers::TwoPoint1 => 3,
            Speakers::FourPoint0 => 4,
            Speakers::FourPoint1 => 5,
            Speakers::FivePoint1 => 6,
            Speakers::SevenPoint1 => 8,
        }
    }

    /// The value whose enumerant is `raw`, if there is one.
    pub open spec fn spec_from_raw(raw: u32) -> Option<Speakers> {
        if raw == 0 {
            Some(Speakers::Unknown)
        } else if raw == 1 {
            Some(Speakers::Mono)
        } else if raw == 2 {
            Some(Speakers::Stereo)
        } else if raw == 3 {
            Some(Speakers::TwoPoint1)
        } else if raw == 4 {
            Some(Speakers::FourPoint0)
        } else if raw == 5 {
            Some(Speakers::FourPoint1)
        } else if raw == 6 {
            Some(Speakers::FivePoint1)
        } else if raw == 8 {
            Some(Speakers::SevenPoint1)
        } else {
            None
        }
    }

    /// Converts to the underlying libobs enumerant.
    pub fn as_raw(self) -> (r: u32)
        ensures
            r == self.spec_raw(),
    {
        match self {
            Speakers::Unknown => 0,
            Speakers::Mono => 1,
            Speakers::Stereo => 2,
            Speakers::TwoPoint1 => 3,
            Speakers::FourPoint0 => 4,
            Speakers::FourPoint1 => 5,
            Speakers::FivePoint1 => 6,
            Speakers::SevenPoint1 => 8,
        }
    }

    /// Maps a libobs enumerant to a value; unknown enumerants are returned
    /// in the error.
    pub fn from_raw(raw: u32) -> (r: Result<Speakers, UnknownNativeValue>)
        ensures
            match r {
                Ok(v) => Self::spec_from_raw(raw) == Some(v),
                Err(e) => Self::spec_from_raw(raw) is None && e.raw == raw,
            },
    {
        match raw {
            0 => Ok(Speakers::Unknown),
            1 => Ok(Speakers::Mono),
            2 => Ok(Speakers::Stereo),
            3 => Ok(Speakers::TwoPoint1),
            4 => Ok(Speakers::FourPoint0),
            5 => Ok(Speakers::FourPoint1),
            6 => Ok(Speakers::FivePoint1),
            8 => Ok(Speakers::SevenPoint1),
            _ => Err(UnknownNativeValue { raw }),
        }
    }
}

/// Converting a value to its enumerant and back gives the same value, and
/// an enumerant that names a value is that value's enumerant.
pub proof fn lemma_speakers_raw_roundtrip(v: Speakers, raw: u32)
    ensures
        Speakers::spec_from_raw(v.spec_raw()) == Some(v),
        Speakers::spec_from_raw(raw) matches Some(w) ==> w.spec_raw() == raw,
{
}

/// One plane of a video frame: a buffer plus its row stride in bytes.
///
/// For multi-plane formats (e.g. NV12, I420), each plane describes a
/// separate image-component buffer (Y, UV, or Y/U/V respectively).
#[derive(Clone, Copy)]
pub struct Plane<'a> {
    pub data: &'a [u8],
    pub linesize: u32,
}

impl<'a> Plane<'a> {
    /// An empty plane with a zero stride.
    pub fn empty() -> (r: Self)
        ensures
            r.data@.len() == 0,
            r.linesize == 0,
    {
        Plane { data: &[], linesize: 0 }
    }
}

impl<'a> Default for Plane<'a> {
    fn default() -> (r: Self)
        ensures
            r.data@.len() == 0,
            r.linesize == 0,
    {
        Plane::empty()
    }
}

/// A video frame ready to be pushed into OBS.
///
/// Construct with [`SourceVideoFrame::new`] and add planes with
/// [`SourceVideoFrame::with_plane`].
pub struct SourceVideoFrame<'a> {
    /// Pixel format. Must match the layout of `planes`.
    pub format: VideoFormat,
    pub width: u32,
    pub height: u32,
    /// Presentation timestamp in OBS's nanosecond domain (`os_gettime_ns`).
    pub timestamp_ns: u64,
    /// Up to 8 planes. Index 0 carries the primary plane for single-plane
    /// formats; multi-plane layouts use 0..N as the codec dictates (NV12:
    /// 0=Y, 1=UV; I420: 0=Y, 1=U, 2=V).
    pub planes: [Plane<'a>; 8],
    /// Flip vertically when rendering.
    pub flip: bool,
    /// `true` for full-range YUV, `false` for studio/limited range. Ignored
    /// for RGB formats.
    pub full_range: bool,
}

impl<'a> SourceVideoFrame<'a> {
    /// A frame with the given format, size and timestamp, empty planes, no
    /// flip and limited range.
    pub fn new(format: VideoFormat, width: u32, height: u32, timestamp_ns: u64) -> (r: Self)
        ensures
            r.format == format,
            r.width == width,
            r.height == height,
            r.timestamp_ns == timestamp_ns,
            forall|i: int| 0 <= i < 8 ==> #[trigger] r.planes@[i].data@.len() == 0 && r.planes@[i].linesize == 0,
            !r.flip,
            !r.full_range,
    {
        let p = Plane::empty();
        Self {
            format,
            width,
            height,
            timestamp_ns,
            planes: [p, p, p, p, p, p, p, p],
            flip: false,
            full_range: false,
        }
    }

    /// Sets plane `idx` (which must be below 8) to `data` with stride
    /// `linesize`, leaving the other planes as they were.
    pub fn with_plane(self, idx: usize, data: &'a [u8], linesize: u32) -> (r: Self)
        requires
            idx < 8,
        ensures
            r.planes@ == self.planes@.update(idx as int, Plane { data, linesize }),
            r.format == self.format,
            r.width == self.width,
            r.height == self.height,
            r.timestamp_ns == self.timestamp_ns,
            r.flip == self.flip,
            r.full_range == self.full_range,
    {
        let mut this = self;
        this.planes[idx] = Plane { data, linesize };
        this
    }

    /// Sets whether the frame is flipped vertically.
    pub fn with_flip(self, flip: bool) -> (r: Self)
        ensures
            r.flip == flip,
            r.planes == self.planes,
            r.format == self.format,
            r.width == self.width,
            r.height == self.height,
            r.timestamp_ns == self.timestamp_ns,
            r.full_range == self.full_range,
    {
        let mut this = self;
        this.flip = flip;
        this
    }

    /// Sets whether YUV data is full range.
    pub fn with_full_range(self, full_range: bool) -> (r: Self)
        ensures
            r.full_range == full_range,
            r.planes == self.planes,
            r.format == self.format,
            r.width == self.width,
            r.height == self.height,
            r.timestamp_ns == self.timestamp_ns,
            r.flip == self.flip,
    {
        let mut this = self;
        this.full_range = full_range;
        this
    }
}

/// An audio buffer ready to be pushed into OBS.
///
/// For interleaved formats fill `planes[0]`. For planar formats fill
/// `planes[0..channel_count]`. Each plane must contain exactly
/// `frames * bytes_per_sample` bytes (per channel for planar; total for
/// interleaved).
pub struct SourceAudio<'a> {
    pub format: AudioFormat,
    pub speakers: Speakers,
    pub samples_per_sec: u32,
    pub frames: u32,
    /// Presentation timestamp in OBS's nanosecond domain (`os_gettime_ns`).
    pub timestamp_ns: u64,
    pub planes: [&'a [u8]; 8],
}

impl<'a> SourceAudio<'a> {
    /// An audio buffer with the given layout, rate, length and timestamp,
    /// and empty planes.
    pub fn new(
        format: AudioFormat,
        speakers: Speakers,
        samples_per_sec: u32,
        frames: u32,
        timestamp_ns: u64,
    ) -> (r: Self)
        ensures
            r.format == format,
            r.speakers == speakers,
            r.samples_per_sec == samples_per_sec,
            r.frames == frames,
            r.timestamp_ns == timestamp_ns,
            forall|i: int| 0 <= i < 8 ==> #[trigger] r.planes@[i]@.len() == 0,
    {
        let e: &'a [u8] = &[];
        Self { format, speakers, samples_per_sec, frames, timestamp_ns, planes: [e, e, e, e, e, e, e, e] }
    }

    /// Sets plane `idx` (which must be below 8) to `data`, leaving the
    /// other planes as they were.
    pub fn with_plane(self, idx: usize, data: &'a [u8]) -> (r: Self)
        requires
            idx < 8,
        ensures
            r.planes@ == self.planes@.update(idx as int, data),
            r.format == self.format,
            r.speakers == self.speakers,
            r.samples_per_sec == self.samples_per_sec,
            r.frames == self.frames,
            r.timestamp_ns == self.timestamp_ns,
    {
        let mut this = self;
        this.planes[idx] = data;
        this
    }
}

/// The fields of libobs's `obs_source_frame` a pushed video frame fills,
/// other than the plane addresses (which are the planes' own bytes).
#[derive(Debug, Clone, Copy)]
pub struct RawFrameFields {
    pub linesize: [u32; 8],
    pub width: u32,
    pub height: u32,
    pub timestamp: u64,
    pub format: u32,
    pub flip: bool,
    pub full_range: bool,
}

/// The fields of libobs's `obs_source_audio` a pushed audio buffer fills,
/// other than the plane addresses.
#[derive(Debug, Clone, Copy, PartialEq, Eq, Structural)]
pub struct RawAudioFields {
    pub frames: u32,
    pub speakers: u32,
    pub format: u32,
    pub samples_per_sec: u32,
    pub timestamp: u64,
}

impl<'a> SourceVideoFrame<'a> {
    /// What pushing the frame hands libobs besides the plane addresses:
    /// each plane's stride, the size, timestamp, raw pixel format, flip and
    /// range.
    pub fn raw_fields(&self) -> (r: RawFrameFields)
        ensures
            forall|i: int| 0 <= i < 8 ==> r.linesize@[i] == #[trigger] self.planes@[i].linesize,
            r.width == self.width,
            r.height == self.height,
            r.timestamp == self.timestamp_ns,
            r.format == self.format.spec_raw(),
            r.flip == self.flip,
            r.full_range == self.full_range,
    {
        let mut linesize = [0u32; 8];
        let mut i: usize = 0;
        while i < 8
            invariant
                i <= 8,
                forall|j: int| 0 <= j < i ==> linesize@[j] == #[trigger] self.planes@[j].linesize,
            decreases 8 - i,
        {
            linesize[i] = self.planes[i].linesize;
            i = i + 1;
        }
        RawFrameFields {
            linesize,
            width: self.width,
            height: self.height,
            timestamp: self.timestamp_ns,
            format: self.format.as_raw(),
            flip: self.flip,
            full_range: self.full_range,
        }
    }
}

impl<'a> SourceAudio<'a> {
    /// What pushing the buffer hands libobs besides the plane addresses:
    /// frame count, raw speaker layout and sample format, rate and
    /// timestamp.
    pub fn raw_fields(&self) -> (r: RawAudioFields)
        ensures
            r.frames == self.frames,
            r.speakers == self.speakers.spec_raw(),
            r.format == self.format.spec_raw(),
            r.samples_per_sec == self.samples_per_sec,
            r.timestamp == self.timestamp_ns,
    {
        RawAudioFields {
            frames: self.frames,
            speakers: self.speakers.as_raw(),
            format: self.format.as_raw(),
            samples_per_sec: self.samples_per_sec,
            timestamp: self.timestamp_ns,
        }
    }
}

/// Each value's libobs enumerant, as libobs numbers them, and the value each of those
/// enumerants stands for.
pub proof fn lemma_audio_format_numbering()
    ensures
        AudioFormat::U8Bit.spec_raw() == 1,
        AudioFormat::spec_from_raw(1) == Some(AudioFormat::U8Bit),
        AudioFormat::Bit16.spec_raw() == 2,
        AudioFormat::spec_from_raw(2) == Some(AudioFormat::Bit16),
        AudioFormat::Bit32.spec_raw() == 3,
        AudioFormat::spec_from_raw(3) == Some(AudioFormat::Bit32),
        AudioFormat::Float.spec_raw() == 4,
        AudioFormat::spec_from_raw(4) == Some(AudioFormat::Float),
        AudioFormat::U8BitPlanar.spec_raw() == 5,
        AudioFormat::spec_from_raw(5) == Some(AudioFormat::U8BitPlanar),
        AudioFormat::Bit16Planar.spec_raw() == 6,
        AudioFormat::spec_from_raw(6) == Some(AudioFormat::Bit16Planar),
        AudioFormat::Bit32Planar.spec_raw() == 7,
        AudioFormat::spec_from_raw(7) == Some(AudioFormat::Bit32Planar),
        AudioFormat::FloatPlanar.spec_raw() == 8,
        AudioFormat::spec_from_raw(8) == Some(AudioFormat::FloatPlanar),
{
}

/// Each value's libobs enumerant, as libobs numbers them, and the value each of those
/// enumerants stands for.
pub proof fn lemma_speakers_numbering()
    ensures
        Speakers::Unknown.spec_raw() == 0,
        Speakers::spec_from_raw(0) == Some(Speakers::Unknown),
        Speakers::Mono.spec_raw() == 1,
        Speakers::spec_from_raw(1) == Some(Speakers::Mono),
        Speakers::Stereo.spec_raw() == 2,
        Speakers::spec_from_raw(2) == Some(Speakers::Stereo),
        Speakers::TwoPoint1.spec_raw() == 3,
        Speakers::spec_from_raw(3) == Some(Speakers::TwoPoint1),
        Speakers::FourPoint0.spec_raw() == 4,
        Speakers::spec_from_raw(4) == Some(Speakers::FourPoint0),
        Speakers::FourPoint1.spec_raw() == 5,
        Speakers::spec_from_raw(5) == Some(Speakers::FourPoint1),
        Speakers::FivePoint1.spec_raw() == 6,
        Speakers::spec_from_raw(6) == Some(Speakers::FivePoint1),
        Speakers::SevenPoint1.spec_raw() == 8,
        Speakers::spec_from_raw(8) == Some(Speakers::SevenPoint1),
{
}

} // verus!

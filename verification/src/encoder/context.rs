//! Values handed to and produced by encoder callbacks: input frames,
//! packets under construction, and finished packets as seen by outputs.

use vstd::prelude::*;
use vstd::slice::slice_subrange;

use super::EncoderType;
use crate::settings::Settings;

verus! {

/// What an encoder's create hook receives besides the encoder's handle:
/// the initial settings.
pub struct CreatableEncoderContext {
    /// Initial encoder settings.
    pub settings: Settings,
}

impl CreatableEncoderContext {
    /// A context carrying `settings`.
    pub fn new(settings: Settings) -> (r: Self)
        ensures
            r.settings == settings,
    {
        CreatableEncoderContext { settings }
    }
}

/// A borrowed, read-only view of an input frame supplied by OBS.
///
/// `EncoderFrame` exposes the planes, line strides, frame count, and
/// presentation timestamp of an input buffer that libobs is asking the
/// encoder to consume. Up to 8 planes are present; an unused plane is empty.
pub struct EncoderFrame<'a> {
    planes: [&'a [u8]; 8],
    linesize: [u32; 8],
    frames: u32,
    pts: i64,
}

impl<'a> EncoderFrame<'a> {
    /// The frame's planes.
    pub closed spec fn spec_planes(&self) -> Seq<&'a [u8]> {
        self.planes@
    }

    /// The row stride of each plane.
    pub closed spec fn spec_linesize(&self) -> Seq<u32> {
        self.linesize@
    }

    /// The number of audio frames.
    pub closed spec fn spec_frames(&self) -> u32 {
        self.frames
    }

    /// The presentation timestamp.
    pub closed spec fn spec_pts(&self) -> i64 {
        self.pts
    }

    /// Assembles a frame from its planes, strides, audio frame count and
    /// presentation timestamp.
    pub fn from_parts(planes: [&'a [u8]; 8], linesize: [u32; 8], frames: u32, pts: i64) -> (r:
        Self)
        ensures
            r.spec_planes() == planes@,
            r.spec_linesize() == linesize@,
            r.spec_frames() == frames,
            r.spec_pts() == pts,
    {
        EncoderFrame { planes, linesize, frames, pts }
    }

    /// Returns plane `idx` (`0..8`); an unused plane is empty.
    pub fn plane_ptr(&self, idx: usize) -> (r: &'a [u8])
        requires
            idx < 8,
        ensures
            r == self.spec_planes()[idx as int],
    {
        self.planes[idx]
    }

    /// Returns the first `len` bytes of plane `idx`.
    ///
    /// For video planes, `len` is typically `linesize * height_for_plane`;
    /// for audio, `frames * bytes_per_sample` (per channel for planar
    /// formats).
    pub fn plane(&self, idx: usize, len: usize) -> (r: &'a [u8])
        requires
            idx < 8,
            len <= self.spec_planes()[idx as int]@.len(),
        ensures
            r@ == self.spec_planes()[idx as int]@.subrange(0, len as int),
    {
        slice_subrange(self.planes[idx], 0, len)
    }

    /// Returns the row stride in bytes for plane `idx`.
    pub fn linesize(&self, idx: usize) -> (r: u32)
        requires
            idx < 8,
        ensures
            r == self.spec_linesize()[idx as int],
    {
        self.linesize[idx]
    }

    /// Returns the number of audio frames in this buffer (audio only).
    pub fn frames(&self) -> (r: u32)
        ensures
            r == self.spec_frames(),
    {
        self.frames
    }

    /// Returns the presentation timestamp of this frame, in the encoder's
    /// timebase.
    pub fn pts(&self) -> (r: i64)
        ensures
            r == self.spec_pts(),
    {
        self.pts
    }
}

/// The outcome of a single encode call.
#[derive(Debug, Clone, Copy, PartialEq, Eq, Structural)]
pub enum EncodeStatus {
    /// A packet was produced and written into the [`EncoderPacket`].
    Received,
    /// No packet was produced this call. The encoder is still buffering
    /// input and is not yet ready to emit output.
    NotReady,
}

/// The error an encode callback reports, with a human-readable message.
#[derive(Debug)]
pub struct EncodeError {
    /// What went wrong.
    pub message: String,
}

/// The metadata of an encoded packet, mirroring the fields of libobs's
/// `encoder_packet` other than its payload.
#[derive(Debug, Clone, Copy, PartialEq, Eq, Structural)]
pub struct PacketHeader {
    /// Presentation timestamp, in the packet's timebase.
    pub pts: i64,
    /// Decode timestamp, in the packet's timebase.
    pub dts: i64,
    /// Whether the packet is a keyframe.
    pub keyframe: bool,
    /// Muxing priority.
    pub priority: i32,
    /// Priority used to decide which packets to drop under congestion.
    pub drop_priority: i32,
    /// Track the packet belongs to.
    pub track_idx: usize,
    /// Timebase numerator.
    pub timebase_num: i32,
    /// Timebase denominator.
    pub timebase_den: i32,
    /// libobs `obs_encoder_type` enumerant: audio or video.
    pub type_: u32,
}

impl PacketHeader {
    /// An all-zero header, as libobs hands it to a fresh encode call.
    pub fn zeroed() -> (r: Self)
        ensures
            r.pts == 0 && r.dts == 0 && !r.keyframe && r.priority == 0 && r.drop_priority == 0
                && r.track_idx == 0 && r.timebase_num == 0 && r.timebase_den == 0 && r.type_ == 0,
    {
        PacketHeader {
            pts: 0,
            dts: 0,
            keyframe: false,
            priority: 0,
            drop_priority: 0,
            track_idx: 0,
            timebase_num: 0,
            timebase_den: 0,
            type_: 0,
        }
    }
}

/// A packet being filled by an encode callback: its metadata plus the
/// encoder-owned payload buffer.
///
/// The payload buffer is reused across calls. A typical encode callback:
///
/// 1. Calls [`reset`](Self::reset) to clear the previous payload.
/// 2. Sets timestamps and codec metadata with [`set_pts`](Self::set_pts),
///    [`set_dts`](Self::set_dts), [`set_keyframe`](Self::set_keyframe), and
///    related setters.
/// 3. Appends payload bytes via [`write`](Self::write), or constructs them
///    in place via [`writer`](Self::writer).
/// 4. Returns [`EncodeStatus::Received`].
pub struct EncoderPacket {
    raw: PacketHeader,
    buffer: Vec<u8>,
}

impl EncoderPacket {
    /// The packet's metadata.
    pub closed spec fn header(&self) -> PacketHeader {
        self.raw
    }

    /// The payload written so far.
    pub closed spec fn payload(&self) -> Seq<u8> {
        self.buffer@
    }

    /// A packet with the given metadata and payload buffer.
    pub fn from_parts(raw: PacketHeader, buffer: Vec<u8>) -> (r: Self)
        ensures
            r.header() == raw,
            r.payload() == buffer@,
    {
        EncoderPacket { raw, buffer }
    }

    /// Clears the payload buffer without releasing its capacity.
    ///
    /// Call this at the top of every encode callback before writing the
    /// new payload.
    pub fn reset(&mut self)
        ensures
            final(self).payload() == Seq::<u8>::empty(),
            final(self).header() == old(self).header(),
    {
        self.buffer.clear();
    }

    /// Appends bytes to the payload.
    pub fn write(&mut self, bytes: &[u8])
        ensures
            final(self).payload() == old(self).payload() + bytes@,
            final(self).header() == old(self).header(),
    {
        self.buffer.extend_from_slice(bytes);
        proof {
            assert(self.buffer@ =~= old(self).buffer@ + bytes@);
        }
    }

    /// Returns mutable access to the payload buffer.
    ///
    /// Useful when the underlying codec hands back a buffer that should be
    /// extended in place.
    pub fn writer(&mut self) -> (r: &mut Vec<u8>)
        ensures
            r@ == old(self).payload(),
            final(self).payload() == final(r)@,
            final(self).header() == old(self).header(),
    {
        &mut self.buffer
    }

    /// Sets the presentation timestamp, in the encoder's timebase.
    pub fn set_pts(&mut self, pts: i64)
        ensures
            final(self).header() == (PacketHeader { pts, ..old(self).header() }),
            final(self).payload() == old(self).payload(),
    {
        self.raw.pts = pts;
    }

    /// Sets the decode timestamp, in the encoder's timebase.
    pub fn set_dts(&mut self, dts: i64)
        ensures
            final(self).header() == (PacketHeader { dts, ..old(self).header() }),
            final(self).payload() == old(self).payload(),
    {
        self.raw.dts = dts;
    }

    /// Marks this packet as a keyframe.
    pub fn set_keyframe(&mut self, keyframe: bool)
        ensures
            final(self).header() == (PacketHeader { keyframe, ..old(self).header() }),
            final(self).payload() == old(self).payload(),
    {
        self.raw.keyframe = keyframe;
    }

    /// Sets the muxing priority of this packet.
    pub fn set_priority(&mut self, priority: i32)
        ensures
            final(self).header() == (PacketHeader { priority, ..old(self).header() }),
            final(self).payload() == old(self).payload(),
    {
        self.raw.priority = priority;
    }

    /// Sets the priority used to decide which packets to drop under
    /// congestion.
    pub fn set_drop_priority(&mut self, drop_priority: i32)
        ensures
            final(self).header() == (PacketHeader { drop_priority, ..old(self).header() }),
            final(self).payload() == old(self).payload(),
    {
        self.raw.drop_priority = drop_priority;
    }

    /// Sets the track index this packet belongs to (multi-track outputs).
    pub fn set_track_idx(&mut self, idx: usize)
        ensures
            final(self).header() == (PacketHeader { track_idx: idx, ..old(self).header() }),
            final(self).payload() == old(self).payload(),
    {
        self.raw.track_idx = idx;
    }

    /// Sets the rational timebase for the timestamps on this packet.
    pub fn set_timebase(&mut self, num: i32, den: i32)
        ensures
            final(self).header() == (PacketHeader {
                timebase_num: num,
                timebase_den: den,
                ..old(self).header()
            }),
            final(self).payload() == old(self).payload(),
    {
        self.raw.timebase_num = num;
        self.raw.timebase_den = den;
    }

    /// Marks this packet as audio or video.
    pub fn set_packet_type(&mut self, ty: EncoderType)
        ensures
            final(self).header() == (PacketHeader { type_: ty.spec_raw(), ..old(self).header() }),
            final(self).payload() == old(self).payload(),
    {
        self.raw.type_ = ty.as_raw();
    }

    /// A read-only view of this packet, as an output receives it once the
    /// encode call has delivered it.
    pub fn view(&self) -> (r: EncodedPacketView<'_>)
        ensures
            r.header() == self.header(),
            r.spec_data()@ == self.payload(),
    {
        EncodedPacketView { raw: &self.raw, data: self.buffer.as_slice() }
    }
}

/// A read-only view of a previously-encoded packet, as delivered to an
/// output.
///
/// The view refers to a buffer owned by the upstream encoder and is only
/// valid for the duration of the receiving callback; copy any bytes you
/// need to retain.
pub struct EncodedPacketView<'a> {
    raw: &'a PacketHeader,
    data: &'a [u8],
}

impl<'a> EncodedPacketView<'a> {
    /// The packet's metadata.
    pub closed spec fn header(&self) -> PacketHeader {
        *self.raw
    }

    /// The packet's payload.
    pub closed spec fn spec_data(&self) -> &'a [u8] {
        self.data
    }

    /// A view of the packet with metadata `raw` and payload `data`.
    pub fn from_raw(raw: &'a PacketHeader, data: &'a [u8]) -> (r: Self)
        ensures
            r.header() == *raw,
            r.spec_data() == data,
    {
        EncodedPacketView { raw, data }
    }

    /// Returns the encoded payload bytes.
    pub fn data(&self) -> (r: &'a [u8])
        ensures
            r == self.spec_data(),
    {
        self.data
    }

    /// Returns the presentation timestamp.
    pub fn pts(&self) -> (r: i64)
        ensures
            r == self.header().pts,
    {
        self.raw.pts
    }

    /// Returns the decode timestamp.
    pub fn dts(&self) -> (r: i64)
        ensures
            r == self.header().dts,
    {
        self.raw.dts
    }

    /// Returns whether this packet is marked as a keyframe.
    pub fn keyframe(&self) -> (r: bool)
        ensures
            r == self.header().keyframe,
    {
        self.raw.keyframe
    }

    /// Returns the muxing priority.
    pub fn priority(&self) -> (r: i32)
        ensures
            r == self.header().priority,
    {
        self.raw.priority
    }

    /// Returns the priority used by congestion-based packet drop.
    pub fn drop_priority(&self) -> (r: i32)
        ensures
            r == self.header().drop_priority,
    {
        self.raw.drop_priority
    }

    /// Returns the track index this packet belongs to.
    pub fn track_idx(&self) -> (r: usize)
        ensures
            r == self.header().track_idx,
    {
        self.raw.track_idx
    }

    /// Returns the timebase as a `(numerator, denominator)` pair.
    pub fn timebase(&self) -> (r: (i32, i32))
        ensures
            r == (self.header().timebase_num, self.header().timebase_den),
    {
        (self.raw.timebase_num, self.raw.timebase_den)
    }

    /// Returns whether this packet is audio or video, or `None` if the
    /// underlying value does not correspond to a known encoder type.
    pub fn packet_type(&self) -> (r: Option<EncoderType>)
        ensures
            r == EncoderType::spec_from_raw(self.header().type_),
    {
        EncoderType::from_raw(self.raw.type_)
    }
}

/// What the encode callback shim reports to libobs for the result of a
/// user encode call: whether the call succeeded, and whether a packet was
/// received (in which case the packet's payload is handed to libobs).
pub open spec fn spec_encode_outcome(result: Result<EncodeStatus, EncodeError>) -> (bool, bool) {
    match result {
        Ok(EncodeStatus::Received) => (true, true),
        Ok(EncodeStatus::NotReady) => (true, false),
        Err(_) => (false, false),
    }
}

/// What the encode callback shim reports to libobs for the result of a
/// user encode call: whether the call succeeded, and whether a packet was
/// received (in which case the packet's payload is handed to libobs).
pub fn encode_outcome(result: &Result<EncodeStatus, EncodeError>) -> (r: (bool, bool))
    ensures
        r == spec_encode_outcome(*result),
{
    match result {
        Ok(EncodeStatus::Received) => (true, true),
        Ok(EncodeStatus::NotReady) => (true, false),
        Err(_) => (false, false),
    }
}

/// Metadata written through an [`EncoderPacket`]'s setters is what an
/// output reads back through the packet's [`EncodedPacketView`], and the
/// payload it sees is what was written.
pub proof fn lemma_packet_view_reads_back(p: EncoderPacket, v: EncodedPacketView)
    requires
        v.header() == p.header(),
        v.spec_data()@ == p.payload(),
    ensures
        v.header().pts == p.header().pts,
        v.header().dts == p.header().dts,
        v.header().keyframe == p.header().keyframe,
        v.header().priority == p.header().priority,
        v.header().drop_priority == p.header().drop_priority,
        v.header().track_idx == p.header().track_idx,
        v.header().timebase_num == p.header().timebase_num,
        v.header().timebase_den == p.header().timebase_den,
        EncoderType::spec_from_raw(v.header().type_) == EncoderType::spec_from_raw(
            p.header().type_,
        ),
        v.spec_data()@ == p.payload(),
{
}

/// Resetting a packet and then writing `a` and `b` leaves exactly `a`
/// followed by `b` as its payload, whatever it held before: `p1` is `p0`
/// after [`EncoderPacket::reset`], `p2` is `p1` after writing `a`, and `p3`
/// is `p2` after writing `b`.
pub proof fn lemma_reset_then_writes(
    p0: EncoderPacket,
    p1: EncoderPacket,
    p2: EncoderPacket,
    p3: EncoderPacket,
    a: Seq<u8>,
    b: Seq<u8>,
)
    requires
        p1.payload() == Seq::<u8>::empty(),
        p1.header() == p0.header(),
        p2.payload() == p1.payload() + a,
        p2.header() == p1.header(),
        p3.payload() == p2.payload() + b,
        p3.header() == p2.header(),
    ensures
        p3.payload() == a + b,
        p3.header() == p0.header(),
{
    assert(p3.payload() =~= a + b);
}

/// Marking a packet's type and reading it back gives the same type.
pub proof fn lemma_packet_type_roundtrip(t: EncoderType)
    ensures
        EncoderType::spec_from_raw(t.spec_raw()) == Some(t),
{
}

/// What the encode shims report for each result of an encode call: a
/// received packet is a success with a packet, a buffering encoder a
/// success without one, and an error a failure without one.
pub proof fn lemma_encode_outcomes(e: EncodeError)
    ensures
        spec_encode_outcome(Ok(EncodeStatus::Received)) == (true, true),
        spec_encode_outcome(Ok(EncodeStatus::NotReady)) == (true, false),
        spec_encode_outcome(Err(e)) == (false, false),
{
}

} // verus!

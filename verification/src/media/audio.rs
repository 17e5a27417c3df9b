//! Audio buffers flowing through filters and outputs, and audio output
//! configuration.

use vstd::prelude::*;

verus! {

/// An audio buffer flowing through a filter callback: planar channels
/// with a shared frame count, whose samples a filter may rewrite in place.
pub struct AudioDataContext<'a> {
    data: Vec<&'a mut [u8]>,
    frames: u32,
}

impl<'a> AudioDataContext<'a> {
    /// The bytes of each channel.
    pub closed spec fn spec_data(&self) -> Seq<Seq<u8>> {
        self.data@.map_values(|s: &'a mut [u8]| s@)
    }

    /// The number of audio frames.
    pub closed spec fn spec_frames(&self) -> u32 {
        self.frames
    }

    /// Whether every channel holds exactly `frames` 32-bit float samples
    /// (four bytes each), as libobs lays out a filter's audio.
    pub open spec fn spec_channels_hold_frames(&self) -> bool {
        forall|i: int|
            0 <= i < self.spec_data().len() ==> #[trigger] self.spec_data()[i].len() == 4
                * self.spec_frames()
    }

    /// A buffer with the given channel planes, each of `frames` 32-bit float
    /// samples, and frame count.
    pub fn from_raw(data: Vec<&'a mut [u8]>, frames: u32) -> (r: Self)
        requires
            forall|i: int| 0 <= i < data@.len() ==> #[trigger] data@[i]@.len() == 4 * frames,
        ensures
            r.spec_data() == data@.map_values(|s: &'a mut [u8]| s@),
            r.spec_frames() == frames,
            r.spec_channels_hold_frames(),
    {
        AudioDataContext { data, frames }
    }

    /// Returns the number of audio frames in the buffer.
    pub fn frames(&self) -> (r: usize)
        ensures
            r == self.spec_frames(),
    {
        self.frames as usize
    }

    /// Returns the number of channels in the buffer.
    pub fn channels(&self) -> (r: usize)
        ensures
            r == self.spec_data().len(),
    {
        self.data.len()
    }

    /// Returns the bytes of the named channel for in-place rewriting, or
    /// `None` if `channel` is out of range: `frames` 32-bit float samples,
    /// four bytes each. Writes through the slice are what downstream
    /// filters and outputs see.
    pub fn get_channel_as_mut_slice(&mut self, channel: usize) -> (r: Option<&mut [u8]>)
        ensures
            channel >= old(self).spec_data().len() ==> r is None && final(self).spec_data()
                == old(self).spec_data(),
            channel < old(self).spec_data().len() ==> r is Some && r->0@ == old(
                self,
            ).spec_data()[channel as int] && final(self).spec_data() == old(
                self,
            ).spec_data().update(channel as int, final(r->0)@),
            final(self).spec_frames() == old(self).spec_frames(),
            old(self).spec_channels_hold_frames() && channel < old(self).spec_data().len() ==> r->0@.len()
                == 4 * old(self).spec_frames(),
    {
        if channel >= self.data.len() {
            return None;
        }
        assert(self.spec_channels_hold_frames() ==> self.spec_data()[channel as int].len() == 4
            * self.spec_frames());
        Some(&mut *self.data[channel])
    }
}

/// A view of the audio buffer libobs delivers to an output's raw audio
/// callback.
pub struct AudioDataOutputContext<'a> {
    data: [&'a [u8]; 8],
    frames: u32,
    timestamp: u64,
}

impl<'a> AudioDataOutputContext<'a> {
    /// The planes' bytes.
    pub closed spec fn spec_data(&self) -> Seq<&'a [u8]> {
        self.data@
    }

    /// The number of audio frames.
    pub closed spec fn spec_frames(&self) -> u32 {
        self.frames
    }

    /// The presentation timestamp, in nanoseconds.
    pub closed spec fn spec_timestamp(&self) -> u64 {
        self.timestamp
    }

    /// A buffer with the given planes, frame count and timestamp.
    pub fn from_raw(data: [&'a [u8]; 8], frames: u32, timestamp: u64) -> (r: Self)
        ensures
            r.spec_data() == data@,
            r.spec_frames() == frames,
            r.spec_timestamp() == timestamp,
    {
        AudioDataOutputContext { data, frames, timestamp }
    }

    /// Returns plane `idx`.
    pub fn data_buffer(&self, idx: usize) -> (r: &'a [u8])
        requires
            idx < 8,
        ensures
            r == self.spec_data()[idx as int],
    {
        self.data[idx]
    }

    /// Returns the number of audio frames in the buffer.
    pub fn frames(&self) -> (r: u32)
        ensures
            r == self.spec_frames(),
    {
        self.frames
    }

    /// Returns the buffer's presentation timestamp, in nanoseconds.
    pub fn timestamp(&self) -> (r: u64)
        ensures
            r == self.spec_timestamp(),
    {
        self.timestamp
    }
}

/// Owned snapshot of an audio output's configuration.
#[derive(Debug, Clone, Copy, PartialEq, Eq, Structural)]
pub struct AudioInfo {
    /// Sample rate, in Hz.
    pub sample_rate: usize,
    /// Number of audio channels.
    pub channels: usize,
}

} // verus!

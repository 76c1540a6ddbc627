use crate::format::{duration_of, duration_of_count, AudioFormat, StreamDuration};
use vstd::prelude::*;

verus! {

/// The signed 16-bit value of two bytes, least significant first.
pub open spec fn sample_from_le(low: u8, high: u8) -> int {
    let u = low as int + 256 * high as int;
    if u >= 32768 {
        u - 65536
    } else {
        u
    }
}

/// Raw PCM bytes read as little-endian signed 16-bit samples; a trailing odd byte
/// is dropped.
pub open spec fn decode_pcm_spec(bytes: Seq<u8>) -> Seq<i16> {
    Seq::new(bytes.len() / 2, |i: int| sample_from_le(bytes[2 * i], bytes[2 * i + 1]) as i16)
}

/// Reads raw PCM bytes as little-endian signed 16-bit samples: `2k` or `2k + 1`
/// bytes give `k` samples.
pub fn decode_pcm(bytes: &Vec<u8>) -> (r: Vec<i16>)
    ensures
        r@ == decode_pcm_spec(bytes@),
        r@.len() == bytes@.len() / 2,
{
    let len: usize = bytes.len();
    let n: usize = len / 2;
    let mut out: Vec<i16> = Vec::with_capacity(n);
    let mut i: usize = 0;
    while i < n
        invariant
            len == bytes@.len(),
            n == len / 2,
            i <= n,
            out@ =~= decode_pcm_spec(bytes@).take(i as int),
        decreases n - i,
    {
        assert(2 * i + 1 < bytes@.len());
        let low: u8 = bytes[2 * i];
        let high: u8 = bytes[2 * i + 1];
        let u: i32 = low as i32 + 256 * high as i32;
        let s: i16 = if u >= 32768 {
            (u - 65536) as i16
        } else {
            u as i16
        };
        out.push(s);
        i = i + 1;
        assert(out@ =~= decode_pcm_spec(bytes@).take(i as int));
    }
    assert(out@ =~= decode_pcm_spec(bytes@));
    out
}

/// A stream that plays back samples decoded from raw little-endian 16-bit PCM.
pub struct FileAudioStream {
    sample_rate: u32,
    channels: u16,
    data: Vec<i16>,
    position: usize,
    duration: StreamDuration,
}

impl FileAudioStream {
    pub closed spec fn format(&self) -> AudioFormat {
        AudioFormat { sample_rate: self.sample_rate, channels: self.channels }
    }

    pub closed spec fn duration(&self) -> StreamDuration {
        self.duration
    }

    /// The decoded samples.
    pub closed spec fn samples(&self) -> Seq<i16> {
        self.data@
    }

    pub closed spec fn budget(&self) -> nat {
        self.data@.len()
    }

    pub closed spec fn emitted(&self) -> nat {
        self.position as nat
    }

    pub closed spec fn wf(&self) -> bool {
        &&& self.position <= self.data@.len()
        &&& self.format().valid()
        &&& self.duration == duration_of_count(self.format(), self.data@.len())
    }

    /// Decodes the whole of `bytes` up front; the duration is the decoded sample count
    /// divided by the samples per second, to the nanosecond.
    pub fn new(bytes: &Vec<u8>, sample_rate: u32, channels: u16) -> (r: Self)
        requires
            sample_rate > 0,
            channels > 0,
        ensures
            r.wf(),
            r.format() == (AudioFormat { sample_rate, channels }),
            r.samples() == decode_pcm_spec(bytes@),
            r.duration() == duration_of_count(
                AudioFormat { sample_rate, channels },
                bytes@.len() / 2,
            ),
            r.budget() == bytes@.len() / 2,
            r.emitted() == 0,
    {
        let data = decode_pcm(bytes);
        let format = AudioFormat { sample_rate, channels };
        let duration = duration_of(&format, data.len() as u64);
        FileAudioStream { sample_rate, channels, data, position: 0, duration }
    }

    /// The next decoded sample, or `None` past the last (and on every call after).
    pub fn next(&mut self) -> (r: Option<i16>)
        requires
            old(self).wf(),
        ensures
            final(self).wf(),
            final(self).format() == old(self).format(),
            final(self).duration() == old(self).duration(),
            final(self).samples() == old(self).samples(),
            final(self).budget() == old(self).budget(),
            old(self).emitted() < old(self).budget() ==> r == Some(
                old(self).samples()[old(self).emitted() as int],
            ) && final(self).emitted() == old(self).emitted() + 1,
            old(self).emitted() >= old(self).budget() ==> r is None && *final(self) == *old(self),
    {
        if self.position < self.data.len() {
            let sample: i16 = self.data[self.position];
            self.position = self.position + 1;
            Some(sample)
        } else {
            None
        }
    }

    /// Frames have no fixed length in this stream.
    pub fn current_frame_len(&self) -> (r: Option<usize>)
        ensures
            r is None,
    {
        None
    }

    pub fn channels(&self) -> (r: u16)
        ensures
            r == self.format().channels,
    {
        self.channels
    }

    pub fn sample_rate(&self) -> (r: u32)
        ensures
            r == self.format().sample_rate,
    {
        self.sample_rate
    }

    pub fn total_duration(&self) -> (r: Option<StreamDuration>)
        ensures
            r == Some(self.duration()),
    {
        Some(self.duration)
    }
}

} // verus!

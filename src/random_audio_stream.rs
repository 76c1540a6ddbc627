use crate::format::{budget_fits, total_samples, total_samples_of, AudioFormat, StreamDuration};
use rand::Rng;
use vstd::prelude::*;

verus! {

/// Relies on rand's `thread_rng().gen_range(i16::MIN..=i16::MAX)`: a value drawn
/// from the whole signed 16-bit range (a non-empty range, so the call does not
/// panic). Nothing is known of which value comes back.
#[verifier::external_body]
fn draw_sample() -> (r: i16) {
    rand::thread_rng().gen_range(i16::MIN..=i16::MAX)
}

/// Noise generator: every sample is drawn independently from the whole signed
/// 16-bit range, until the stream's sample budget is spent.
pub struct RandomAudioStream {
    sample_rate: u32,
    channels: u16,
    duration: StreamDuration,
    total: u64,
    samples_generated: u64,
}

impl RandomAudioStream {
    pub closed spec fn format(&self) -> AudioFormat {
        AudioFormat { sample_rate: self.sample_rate, channels: self.channels }
    }

    pub closed spec fn duration(&self) -> StreamDuration {
        self.duration
    }

    /// The number of samples the stream emits in all.
    pub closed spec fn budget(&self) -> nat {
        self.total as nat
    }

    /// The number of samples emitted so far.
    pub closed spec fn emitted(&self) -> nat {
        self.samples_generated as nat
    }

    pub closed spec fn wf(&self) -> bool {
        &&& self.total as nat == total_samples_of(self.format(), self.duration)
        &&& self.samples_generated <= self.total
    }

    pub fn new(sample_rate: u32, channels: u16, duration: StreamDuration) -> (r: Self)
        requires
            budget_fits(AudioFormat { sample_rate, channels }, duration),
        ensures
            r.wf(),
            r.format() == (AudioFormat { sample_rate, channels }),
            r.duration() == duration,
            r.budget() == total_samples_of(AudioFormat { sample_rate, channels }, duration),
            r.emitted() == 0,
    {
        let total = total_samples(&AudioFormat { sample_rate, channels }, &duration);
        RandomAudioStream { sample_rate, channels, duration, total, samples_generated: 0 }
    }

    /// The next sample, or `None` once the budget is spent (and on every call after).
    pub fn next(&mut self) -> (r: Option<i16>)
        requires
            old(self).wf(),
        ensures
            final(self).wf(),
            final(self).format() == old(self).format(),
            final(self).duration() == old(self).duration(),
            final(self).budget() == old(self).budget(),
            old(self).emitted() < old(self).budget() ==> r is Some && final(self).emitted()
                == old(self).emitted() + 1,
            old(self).emitted() >= old(self).budget() ==> r is None && *final(self) == *old(self),
    {
        if self.samples_generated >= self.total {
            return None;
        }
        self.samples_generated = self.samples_generated + 1;
        Some(draw_sample())
    }

    /// Frames have no fixed length in this stream.
    pub fn current_frame_len(&self) -> (r: Option<usize>)
        ensures
            r is None,
    {
        None
    }

    pub fn channels(&self) -> (r: u16)
        ensures
            r == self.format().channels,
    {
        self.channels
    }

    pub fn sample_rate(&self) -> (r: u32)
        ensures
            r == self.format().sample_rate,
    {
        self.sample_rate
    }

    pub fn total_duration(&self) -> (r: Option<StreamDuration>)
        ensures
            r == Some(self.duration()),
    {
        Some(self.duration)
    }
}

} // verus!

use vstd::prelude::*;

verus! {

/// Nanoseconds in one second.
pub const NANOS_PER_SEC: u64 = 1_000_000_000;

/// Sample format of a stream: rate in Hz and number of interleaved channels.
#[derive(Clone, Copy, Debug, PartialEq, Eq, Structural)]
pub struct AudioFormat {
    pub sample_rate: u32,
    pub channels: u16,
}

impl AudioFormat {
    pub open spec fn valid(&self) -> bool {
        self.sample_rate > 0 && self.channels > 0
    }

    /// Interleaved samples per second of audio.
    pub open spec fn samples_per_second(&self) -> nat {
        self.sample_rate as nat * self.channels as nat
    }
}

/// A length of time: whole seconds and the nanoseconds beyond them.
#[derive(Clone, Copy, Debug, PartialEq, Eq, Structural)]
pub struct StreamDuration {
    pub secs: u64,
    pub nanos: u32,
}

impl StreamDuration {
    pub open spec fn valid(&self) -> bool {
        self.nanos < NANOS_PER_SEC
    }

    pub fn new(secs: u64, nanos: u32) -> (r: StreamDuration)
        requires
            nanos < NANOS_PER_SEC,
        ensures
            r.secs == secs,
            r.nanos == nanos,
            r.valid(),
    {
        StreamDuration { secs, nanos }
    }
}

/// The sample budget of a stream: every interleaved sample of the whole
/// seconds of `duration`; a fractional second is truncated away.
pub open spec fn total_samples_of(format: AudioFormat, duration: StreamDuration) -> nat {
    format.samples_per_second() * duration.secs as nat
}

/// Whether the budget of a stream fits a `u64` counter.
pub open spec fn budget_fits(format: AudioFormat, duration: StreamDuration) -> bool {
    total_samples_of(format, duration) <= u64::MAX
}

/// Computes the interleaved samples per second of `format`.
pub fn samples_per_second(format: &AudioFormat) -> (r: u64)
    ensures
        r == format.samples_per_second(),
        r <= 0xffff_ffff * 0xffff,
        format.valid() ==> r > 0,
{
    let rate: u64 = format.sample_rate as u64;
    let channels: u64 = format.channels as u64;
    assert(rate * channels <= 0xffff_ffff * 0xffff) by (nonlinear_arith)
        requires
            rate <= 0xffff_ffff,
            channels <= 0xffff,
    ;
    assert(rate > 0 && channels > 0 ==> rate * channels > 0) by (nonlinear_arith);
    rate * channels
}

/// Computes the sample budget of a stream.
pub fn total_samples(format: &AudioFormat, duration: &StreamDuration) -> (r: u64)
    requires
        budget_fits(*format, *duration),
    ensures
        r == total_samples_of(*format, *duration),
{
    let per_sec = samples_per_second(format);
    per_sec * duration.secs
}

/// The duration of `count` interleaved samples, truncated to whole nanoseconds.
pub open spec fn duration_of_count(format: AudioFormat, count: nat) -> StreamDuration {
    StreamDuration {
        secs: (count / format.samples_per_second()) as u64,
        nanos: ((count % format.samples_per_second()) * NANOS_PER_SEC as nat
            / format.samples_per_second()) as u32,
    }
}

/// Computes how long `count` interleaved samples play in `format`.
pub fn duration_of(format: &AudioFormat, count: u64) -> (r: StreamDuration)
    requires
        format.valid(),
    ensures
        r == duration_of_count(*format, count as nat),
        r.valid(),
{
    let per_sec = samples_per_second(format);
    let secs: u64 = count / per_sec;
    let rest: u64 = count % per_sec;
    let scaled: u128 = rest as u128 * NANOS_PER_SEC as u128;
    let nanos: u128 = scaled / per_sec as u128;
    assert(nanos < NANOS_PER_SEC) by (nonlinear_arith)
        requires
            nanos == scaled as int / per_sec as int,
            scaled == rest * NANOS_PER_SEC,
            rest < per_sec,
            per_sec > 0,
    ;
    StreamDuration { secs, nanos: nanos as u32 }
}

} // verus!

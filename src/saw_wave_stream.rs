use crate::format::{budget_fits, total_samples, total_samples_of, AudioFormat, StreamDuration};
use crate::oscillator::{
    advance_phase, cycle_of, cycle_units, fm_phase_at, frequency_offset, lemma_zero_depth_is_plain_saw,
    modulation_offset, phase_step, saw_phase_at, saw_sample, saw_value,
};
use vstd::prelude::*;

verus! {

/// Frequency-modulated sawtooth oscillator.
///
/// Each sample is `phase * amplitude` (rounded, saturated to 16 bits); the phase then
/// advances by `base_frequency + modulation * modulation_depth`, where `modulation` is
/// the sine value for the sample, supplied by the caller in Q15. The sine is taken of
/// `modulation_frequency * n / sample_rate` radians for the `n`-th sample (counted from
/// one); [`SawWaveStream::modulation_argument`] hands out that argument.
/// With a depth of zero this is the plain sawtooth of `base_frequency`.
pub struct SawWaveStream {
    sample_rate: u32,
    channels: u16,
    duration: StreamDuration,
    total: u64,
    samples_generated: u64,
    base_frequency: u32,
    modulation_frequency: u32,
    modulation_depth: u32,
    amplitude: i32,
    phase: u64,
    cycle: u64,
    modulations: Ghost<Seq<i16>>,
}

/// The phase after `k` samples depends only on the first `k` modulation samples.
proof fn lemma_fm_phase_prefix(
    base: int,
    depth: int,
    modulations: Seq<i16>,
    next: i16,
    cycle: int,
    k: nat,
)
    requires
        k <= modulations.len(),
    ensures
        fm_phase_at(base, depth, modulations.push(next), cycle, k) == fm_phase_at(
            base,
            depth,
            modulations,
            cycle,
            k,
        ),
    decreases k,
{
    if k > 0 {
        lemma_fm_phase_prefix(base, depth, modulations, next, cycle, (k - 1) as nat);
    }
}

impl SawWaveStream {
    pub closed spec fn format(&self) -> AudioFormat {
        AudioFormat { sample_rate: self.sample_rate, channels: self.channels }
    }

    pub closed spec fn duration(&self) -> StreamDuration {
        self.duration
    }

    pub closed spec fn budget(&self) -> nat {
        self.total as nat
    }

    pub closed spec fn emitted(&self) -> nat {
        self.samples_generated as nat
    }

    /// Base frequency, in millihertz.
    pub closed spec fn base_frequency(&self) -> nat {
        self.base_frequency as nat
    }

    /// Modulation frequency, in millihertz.
    pub closed spec fn modulation_frequency(&self) -> nat {
        self.modulation_frequency as nat
    }

    /// Modulation depth, in millihertz.
    pub closed spec fn modulation_depth(&self) -> nat {
        self.modulation_depth as nat
    }

    pub closed spec fn amplitude(&self) -> int {
        self.amplitude as int
    }

    /// Current phase, in units of `1 / cycle()` of a period.
    pub closed spec fn phase(&self) -> nat {
        self.phase as nat
    }

    pub closed spec fn cycle(&self) -> nat {
        self.cycle as nat
    }

    /// The modulation samples received so far, oldest first.
    pub closed spec fn modulations(&self) -> Seq<i16> {
        self.modulations@
    }

    pub closed spec fn wf(&self) -> bool {
        &&& self.sample_rate > 0
        &&& self.total as nat == total_samples_of(self.format(), self.duration)
        &&& self.samples_generated <= self.total
        &&& self.cycle as nat == cycle_of(self.sample_rate as nat)
        &&& self.phase < self.cycle
        &&& self.modulations@.len() == self.samples_generated
        &&& self.phase as int == fm_phase_at(
            self.base_frequency as int,
            self.modulation_depth as int,
            self.modulations@,
            self.cycle as int,
            self.samples_generated as nat,
        )
    }

    pub fn new(
        sample_rate: u32,
        channels: u16,
        duration: StreamDuration,
        base_frequency: u32,
        modulation_frequency: u32,
        modulation_depth: u32,
        amplitude: i32,
    ) -> (r: Self)
        requires
            sample_rate > 0,
            budget_fits(AudioFormat { sample_rate, channels }, duration),
        ensures
            r.wf(),
            r.format() == (AudioFormat { sample_rate, channels }),
            r.duration() == duration,
            r.budget() == total_samples_of(AudioFormat { sample_rate, channels }, duration),
            r.emitted() == 0,
            r.base_frequency() == base_frequency,
            r.modulation_frequency() == modulation_frequency,
            r.modulation_depth() == modulation_depth,
            r.amplitude() == amplitude,
            r.phase() == 0,
            r.cycle() == cycle_of(sample_rate as nat),
            r.modulations() == Seq::<i16>::empty(),
    {
        let total = total_samples(&AudioFormat { sample_rate, channels }, &duration);
        let cycle = cycle_units(sample_rate);
        proof {
            vstd::arithmetic::div_mod::lemma_small_mod(0, cycle as nat);
        }
        SawWaveStream {
            sample_rate,
            channels,
            duration,
            total,
            samples_generated: 0,
            base_frequency,
            modulation_frequency,
            modulation_depth,
            amplitude,
            phase: 0,
            cycle,
            modulations: Ghost(Seq::empty()),
        }
    }

    /// The argument, in radians, of the sine that modulates the next sample:
    /// `numerator / denominator`, that is `modulation_frequency * n / sample_rate`
    /// for the `n`-th sample.
    pub fn modulation_argument(&self) -> (r: (u128, u64))
        requires
            self.wf(),
        ensures
            r.0 == self.modulation_frequency() * (self.emitted() + 1),
            r.1 == self.cycle(),
    {
        let n: u128 = self.samples_generated as u128 + 1;
        assert(self.modulation_frequency as u128 * n <= 0xffff_ffff * 0x1_0000_0000_0000_0000)
            by (nonlinear_arith)
            requires
                self.modulation_frequency <= 0xffff_ffff,
                n <= 0x1_0000_0000_0000_0000,
        ;
        (self.modulation_frequency as u128 * n, self.cycle)
    }

    /// The next sample, or `None` once the budget is spent (and on every call after).
    /// `modulation` is the sine of [`SawWaveStream::modulation_argument`] in Q15.
    pub fn next(&mut self, modulation: i16) -> (r: Option<i16>)
        requires
            old(self).wf(),
        ensures
            final(self).wf(),
            final(self).format() == old(self).format(),
            final(self).duration() == old(self).duration(),
            final(self).budget() == old(self).budget(),
            final(self).base_frequency() == old(self).base_frequency(),
            final(self).modulation_frequency() == old(self).modulation_frequency(),
            final(self).modulation_depth() == old(self).modulation_depth(),
            final(self).amplitude() == old(self).amplitude(),
            final(self).cycle() == old(self).cycle(),
            final(self).phase() < final(self).cycle(),
            final(self).phase() == fm_phase_at(
                final(self).base_frequency() as int,
                final(self).modulation_depth() as int,
                final(self).modulations(),
                final(self).cycle() as int,
                final(self).emitted(),
            ),
            old(self).emitted() < old(self).budget() ==> {
                &&& r == Some(
                    saw_value(
                        old(self).phase() as int,
                        old(self).amplitude(),
                        old(self).cycle() as int,
                    ) as i16,
                )
                &&& final(self).phase() == phase_step(
                    old(self).phase() as int,
                    old(self).base_frequency() + modulation_offset(
                        modulation as int,
                        old(self).modulation_depth() as int,
                    ),
                    old(self).cycle() as int,
                )
                &&& final(self).emitted() == old(self).emitted() + 1
                &&& final(self).modulations() == old(self).modulations().push(modulation)
            },
            old(self).emitted() >= old(self).budget() ==> r is None && *final(self) == *old(self),
            // Without modulation depth the output is the plain sawtooth of the base frequency.
            old(self).modulation_depth() == 0 && old(self).emitted() < old(self).budget() ==> r
                == Some(
                saw_value(
                    saw_phase_at(
                        old(self).base_frequency() as int,
                        old(self).cycle() as int,
                        old(self).emitted(),
                    ),
                    old(self).amplitude(),
                    old(self).cycle() as int,
                ) as i16,
            ),
    {
        if self.samples_generated >= self.total {
            return None;
        }
        let k: u64 = self.samples_generated;
        self.samples_generated = k + 1;
        let offset: i64 = frequency_offset(modulation, self.modulation_depth);
        let frequency: i64 = self.base_frequency as i64 + offset;
        let sample: i16 = saw_sample(self.phase, self.amplitude, self.cycle);
        let ghost old_modulations = self.modulations@;
        self.phase = advance_phase(self.phase, frequency, self.cycle);
        self.modulations = Ghost(self.modulations@.push(modulation));
        proof {
            let depth = self.modulation_depth as int;
            let base = self.base_frequency as int;
            let c = self.cycle as int;
            assert(fm_phase_at(base, depth, self.modulations@, c, k as nat) == fm_phase_at(
                base,
                depth,
                old_modulations,
                c,
                k as nat,
            )) by {
                lemma_fm_phase_prefix(base, depth, old_modulations, modulation, c, k as nat);
            }
            if self.modulation_depth == 0 {
                lemma_zero_depth_is_plain_saw(base, old_modulations, c, k as nat);
            }
        }
        Some(sample)
    }

    /// Frames have no fixed length in this stream.
    pub fn current_frame_len(&self) -> (r: Option<usize>)
        ensures
            r is None,
    {
        None
    }

    pub fn channels(&self) -> (r: u16)
        ensures
            r == self.format().channels,
    {
        self.channels
    }

    pub fn sample_rate(&self) -> (r: u32)
        ensures
            r == self.format().sample_rate,
    {
        self.sample_rate
    }

    pub fn total_duration(&self) -> (r: Option<StreamDuration>)
        ensures
            r == Some(self.duration()),
    {
        Some(self.duration)
    }
}

} // verus!

use crate::file_audio_stream::FileAudioStream;
use crate::format::{AudioFormat, StreamDuration};
use crate::random_audio_stream::RandomAudioStream;
use crate::saw_wave_stream::SawWaveStream;
use crate::oscillator::{modulation_offset, phase_step, saw_value};
use crate::scaled_saw_wave_stream::{snap_of, ScaledSawWaveStream, SCALE_LEN};
use vstd::prelude::*;

verus! {

/// The closed set of sample sources.
pub enum Generator {
    Noise(RandomAudioStream),
    Saw(SawWaveStream),
    ScaledSaw(ScaledSawWaveStream),
    File(FileAudioStream),
}

impl Generator {
    pub open spec fn wf(&self) -> bool {
        match self {
            Generator::Noise(g) => g.wf(),
            Generator::Saw(g) => g.wf(),
            Generator::ScaledSaw(g) => g.wf(),
            Generator::File(g) => g.wf(),
        }
    }

    pub open spec fn spec_format(&self) -> AudioFormat {
        match self {
            Generator::Noise(g) => g.format(),
            Generator::Saw(g) => g.format(),
            Generator::ScaledSaw(g) => g.format(),
            Generator::File(g) => g.format(),
        }
    }

    /// The number of samples the source emits in all.
    pub open spec fn budget(&self) -> nat {
        match self {
            Generator::Noise(g) => g.budget(),
            Generator::Saw(g) => g.budget(),
            Generator::ScaledSaw(g) => g.budget(),
            Generator::File(g) => g.budget(),
        }
    }

    /// The number of samples emitted so far.
    pub open spec fn emitted(&self) -> nat {
        match self {
            Generator::Noise(g) => g.emitted(),
            Generator::Saw(g) => g.emitted(),
            Generator::ScaledSaw(g) => g.emitted(),
            Generator::File(g) => g.emitted(),
        }
    }

    pub fn format(&self) -> (r: AudioFormat)
        ensures
            r == self.spec_format(),
    {
        match self {
            Generator::Noise(g) => AudioFormat { sample_rate: g.sample_rate(), channels: g.channels() },
            Generator::Saw(g) => AudioFormat { sample_rate: g.sample_rate(), channels: g.channels() },
            Generator::ScaledSaw(g) => AudioFormat {
                sample_rate: g.sample_rate(),
                channels: g.channels(),
            },
            Generator::File(g) => AudioFormat { sample_rate: g.sample_rate(), channels: g.channels() },
        }
    }

    /// The duration the source reports; every source here is bounded.
    pub fn total_duration(&self) -> (r: Option<StreamDuration>)
        ensures
            r == Some(
                match *self {
                    Generator::Noise(g) => g.duration(),
                    Generator::Saw(g) => g.duration(),
                    Generator::ScaledSaw(g) => g.duration(),
                    Generator::File(g) => g.duration(),
                },
            ),
    {
        match self {
            Generator::Noise(g) => g.total_duration(),
            Generator::Saw(g) => g.total_duration(),
            Generator::ScaledSaw(g) => g.total_duration(),
            Generator::File(g) => g.total_duration(),
        }
    }

    /// The argument, as `numerator / denominator` radians, of the sine that
    /// modulates the next sample, for the sources that are modulated.
    pub fn modulation_argument(&self) -> (r: Option<(u128, u64)>)
        requires
            self.wf(),
        ensures
            r is Some <==> (self is Saw || self is ScaledSaw),
            (match *self {
                Generator::Saw(g) => r->Some_0.0 == g.modulation_frequency() * (g.emitted() + 1)
                    && r->Some_0.1 == g.cycle(),
                Generator::ScaledSaw(g) => r->Some_0.0 == g.modulation_frequency() * (g.emitted()
                    + 1) && r->Some_0.1 == g.cycle(),
                _ => true,
            }),
    {
        match self {
            Generator::Saw(g) => Some(g.modulation_argument()),
            Generator::ScaledSaw(g) => Some(g.modulation_argument()),
            _ => None,
        }
    }

    /// The next sample. Starting from a fresh source, exactly `budget()` calls return
    /// `Some`; once the budget is spent every call returns `None` and changes nothing.
    /// `modulation` (the sine of [`Generator::modulation_argument`] in Q15) is read
    /// only by the modulated sources.
    pub fn next_sample(&mut self, modulation: i16) -> (r: Option<i16>)
        requires
            old(self).wf(),
        ensures
            final(self).wf(),
            final(self).spec_format() == old(self).spec_format(),
            final(self).budget() == old(self).budget(),
            old(self).emitted() < old(self).budget() ==> r is Some && final(self).emitted()
                == old(self).emitted() + 1,
            old(self).emitted() >= old(self).budget() ==> r is None && *final(self) == *old(self),
            // Each source keeps its kind, and its own rule gives the sample.
            (match (*old(self), *final(self)) {
                (Generator::Noise(_), Generator::Noise(_)) => true,
                (Generator::Saw(a), Generator::Saw(b)) => a.emitted() < a.budget() ==> {
                    &&& r == Some(saw_value(a.phase() as int, a.amplitude(), a.cycle() as int) as i16)
                    &&& b.phase() == phase_step(
                        a.phase() as int,
                        a.base_frequency() + modulation_offset(
                            modulation as int,
                            a.modulation_depth() as int,
                        ),
                        a.cycle() as int,
                    )
                },
                (Generator::ScaledSaw(a), Generator::ScaledSaw(b)) => a.emitted() < a.budget() ==> {
                    let target = a.scale()[((a.note_index() + 1) % (SCALE_LEN as nat)) as int]
                        + modulation_offset(modulation as int, a.modulation_depth() as int);
                    &&& r == Some(saw_value(a.phase() as int, a.amplitude(), a.cycle() as int) as i16)
                    &&& b.phase() == phase_step(
                        a.phase() as int,
                        snap_of(a.scale(), target) as int,
                        a.cycle() as int,
                    )
                },
                (Generator::File(a), Generator::File(_)) => a.emitted() < a.budget() ==> r == Some(
                    a.samples()[a.emitted() as int],
                ),
                _ => false,
            }),
    {
        match self {
            Generator::Noise(g) => g.next(),
            Generator::Saw(g) => g.next(modulation),
            Generator::ScaledSaw(g) => g.next(modulation),
            Generator::File(g) => g.next(),
        }
    }
}

} // verus!

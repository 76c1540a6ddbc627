use crate::format::{budget_fits, total_samples, total_samples_of, AudioFormat, StreamDuration};
use crate::oscillator::{
    advance_phase, cycle_of, cycle_units, frequency_offset, modulation_offset, phase_step,
    saw_sample, saw_value,
};
use vstd::prelude::*;

verus! {

/// Number of notes in a scale.
pub const SCALE_LEN: usize = 8;

/// Upper bound of every note frequency, in millihertz.
pub const MAX_NOTE: u64 = 0x3_0000_0000;

/// The scale's notes as multiples of the root, in eighths:
/// 1, 1.125, 1.25, 1.5, 1.75, 2, 2.25, 2.5.
pub open spec fn ratio_eighths(i: int) -> nat {
    if i == 0 {
        8
    } else if i == 1 {
        9
    } else if i == 2 {
        10
    } else if i == 3 {
        12
    } else if i == 4 {
        14
    } else if i == 5 {
        16
    } else if i == 6 {
        18
    } else {
        20
    }
}

/// The scale built on `root` (in millihertz), each note rounded down.
pub open spec fn scale_of(root: nat) -> Seq<u64> {
    Seq::new(SCALE_LEN as nat, |i: int| (root * ratio_eighths(i) / 8) as u64)
}

pub open spec fn distance(a: int, b: int) -> nat {
    if a >= b {
        (a - b) as nat
    } else {
        (b - a) as nat
    }
}

/// The index of the first note among the first `n` of `scale` that lies nearest
/// to `frequency`.
pub open spec fn first_nearest(scale: Seq<u64>, frequency: int, n: nat) -> int
    decreases n,
{
    if n <= 1 {
        0
    } else {
        let i = first_nearest(scale, frequency, (n - 1) as nat);
        if distance(scale[n - 1] as int, frequency) < distance(scale[i] as int, frequency) {
            n - 1
        } else {
            i
        }
    }
}

/// The note of `scale` nearest to `frequency`; of equally near notes, the first.
pub open spec fn snap_of(scale: Seq<u64>, frequency: int) -> u64 {
    scale[first_nearest(scale, frequency, scale.len())]
}

/// `first_nearest` picks a note among the first `n`, no other of them lies nearer,
/// and every note before it lies farther away.
pub proof fn lemma_first_nearest(scale: Seq<u64>, frequency: int, n: nat)
    requires
        1 <= n <= scale.len(),
    ensures
        0 <= first_nearest(scale, frequency, n) < n,
        forall|j: int|
            0 <= j < n ==> distance(#[trigger] scale[j] as int, frequency) >= distance(
                scale[first_nearest(scale, frequency, n)] as int,
                frequency,
            ),
        forall|j: int|
            0 <= j < first_nearest(scale, frequency, n) ==> distance(#[trigger] scale[j] as int, frequency)
                > distance(scale[first_nearest(scale, frequency, n)] as int, frequency),
    decreases n,
{
    if n > 1 {
        lemma_first_nearest(scale, frequency, (n - 1) as nat);
    }
}

/// Snapping never leaves the scale: the frequency that drives the phase is
/// always one of the scale's notes, whatever the modulation did to it.
pub proof fn lemma_snap_in_scale(scale: Seq<u64>, frequency: int)
    requires
        scale.len() >= 1,
    ensures
        scale.contains(snap_of(scale, frequency)),
{
    lemma_first_nearest(scale, frequency, scale.len());
}

/// Sawtooth oscillator quantized to a major-like scale.
///
/// For each sample the note cursor advances (wrapping), the note is modulated as in
/// [`crate::saw_wave_stream::SawWaveStream`], and the result is snapped back to the
/// nearest note of the scale; that note drives the phase.
pub struct ScaledSawWaveStream {
    sample_rate: u32,
    channels: u16,
    duration: StreamDuration,
    total: u64,
    samples_generated: u64,
    modulation_frequency: u32,
    modulation_depth: u32,
    amplitude: i32,
    phase: u64,
    cycle: u64,
    scale: Vec<u64>,
    current_note_index: usize,
}

impl ScaledSawWaveStream {
    pub closed spec fn format(&self) -> AudioFormat {
        AudioFormat { sample_rate: self.sample_rate, channels: self.channels }
    }

    pub closed spec fn duration(&self) -> StreamDuration {
        self.duration
    }

    pub closed spec fn budget(&self) -> nat {
        self.total as nat
    }

    pub closed spec fn emitted(&self) -> nat {
        self.samples_generated as nat
    }

    pub closed spec fn modulation_frequency(&self) -> nat {
        self.modulation_frequency as nat
    }

    pub closed spec fn modulation_depth(&self) -> nat {
        self.modulation_depth as nat
    }

    pub closed spec fn amplitude(&self) -> int {
        self.amplitude as int
    }

    pub closed spec fn phase(&self) -> nat {
        self.phase as nat
    }

    pub closed spec fn cycle(&self) -> nat {
        self.cycle as nat
    }

    /// The scale's notes, in millihertz.
    pub closed spec fn scale(&self) -> Seq<u64> {
        self.scale@
    }

    pub closed spec fn note_index(&self) -> nat {
        self.current_note_index as nat
    }

    pub closed spec fn wf(&self) -> bool {
        &&& self.sample_rate > 0
        &&& self.total as nat == total_samples_of(self.format(), self.duration)
        &&& self.samples_generated <= self.total
        &&& self.cycle as nat == cycle_of(self.sample_rate as nat)
        &&& self.phase < self.cycle
        &&& self.scale@.len() == SCALE_LEN
        &&& forall|i: int| 0 <= i < SCALE_LEN ==> #[trigger] self.scale@[i] <= MAX_NOTE
        &&& self.current_note_index < SCALE_LEN
    }

    pub fn new(
        sample_rate: u32,
        channels: u16,
        duration: StreamDuration,
        base_frequency: u32,
        modulation_frequency: u32,
        modulation_depth: u32,
        amplitude: i32,
    ) -> (r: Self)
        requires
            sample_rate > 0,
            budget_fits(AudioFormat { sample_rate, channels }, duration),
        ensures
            r.wf(),
            r.format() == (AudioFormat { sample_rate, channels }),
            r.duration() == duration,
            r.budget() == total_samples_of(AudioFormat { sample_rate, channels }, duration),
            r.emitted() == 0,
            r.modulation_frequency() == modulation_frequency,
            r.modulation_depth() == modulation_depth,
            r.amplitude() == amplitude,
            r.phase() == 0,
            r.cycle() == cycle_of(sample_rate as nat),
            r.scale() == scale_of(base_frequency as nat),
            r.note_index() == 0,
    {
        let total = total_samples(&AudioFormat { sample_rate, channels }, &duration);
        let cycle = cycle_units(sample_rate);
        let root: u64 = base_frequency as u64;
        let scale: Vec<u64> = vec![
            root * 8 / 8,
            root * 9 / 8,
            root * 10 / 8,
            root * 12 / 8,
            root * 14 / 8,
            root * 16 / 8,
            root * 18 / 8,
            root * 20 / 8,
        ];
        assert(scale@ =~= scale_of(base_frequency as nat));
        ScaledSawWaveStream {
            sample_rate,
            channels,
            duration,
            total,
            samples_generated: 0,
            modulation_frequency,
            modulation_depth,
            amplitude,
            phase: 0,
            cycle,
            scale,
            current_note_index: 0,
        }
    }

    /// The note of the scale nearest to `frequency` (in millihertz); of equally
    /// near notes, the first in scale order.
    pub fn snap_to_nearest_note(&self, frequency: i64) -> (r: u64)
        requires
            self.wf(),
        ensures
            r == snap_of(self.scale(), frequency as int),
            self.scale().contains(r),
    {
        let mut best: usize = 0;
        let mut best_distance: u64 = abs_diff(self.scale[0], frequency);
        let mut i: usize = 1;
        while i < self.scale.len()
            invariant
                self.wf(),
                1 <= i <= SCALE_LEN,
                best == first_nearest(self.scale@, frequency as int, i as nat),
                best < i,
                best_distance == distance(self.scale@[best as int] as int, frequency as int),
            decreases SCALE_LEN - i,
        {
            let d: u64 = abs_diff(self.scale[i], frequency);
            if d < best_distance {
                best = i;
                best_distance = d;
            }
            i = i + 1;
        }
        proof {
            lemma_snap_in_scale(self.scale@, frequency as int);
        }
        self.scale[best]
    }

    /// Moves the cursor to the next note of the scale, wrapping past the last,
    /// and returns that note.
    pub fn next_note_frequency(&mut self) -> (r: u64)
        requires
            old(self).wf(),
        ensures
            final(self).wf(),
            final(self).note_index() == (old(self).note_index() + 1) % (SCALE_LEN as nat),
            r == final(self).scale()[final(self).note_index() as int],
            final(self).scale() == old(self).scale(),
            final(self).format() == old(self).format(),
            final(self).duration() == old(self).duration(),
            final(self).budget() == old(self).budget(),
            final(self).emitted() == old(self).emitted(),
            final(self).modulation_frequency() == old(self).modulation_frequency(),
            final(self).modulation_depth() == old(self).modulation_depth(),
            final(self).amplitude() == old(self).amplitude(),
            final(self).phase() == old(self).phase(),
            final(self).cycle() == old(self).cycle(),
    {
        self.current_note_index = (self.current_note_index + 1) % self.scale.len();
        self.scale[self.current_note_index]
    }

    /// The argument, in radians, of the sine that modulates the next sample:
    /// `numerator / denominator`, that is `modulation_frequency * n / sample_rate`
    /// for the `n`-th sample.
    pub fn modulation_argument(&self) -> (r: (u128, u64))
        requires
            self.wf(),
        ensures
            r.0 == self.modulation_frequency() * (self.emitted() + 1),
            r.1 == self.cycle(),
    {
        let n: u128 = self.samples_generated as u128 + 1;
        assert(self.modulation_frequency as u128 * n <= 0xffff_ffff * 0x1_0000_0000_0000_0000)
            by (nonlinear_arith)
            requires
                self.modulation_frequency <= 0xffff_ffff,
                n <= 0x1_0000_0000_0000_0000,
        ;
        (self.modulation_frequency as u128 * n, self.cycle)
    }

    /// The next sample, or `None` once the budget is spent (and on every call after).
    /// `modulation` is the sine of [`ScaledSawWaveStream::modulation_argument`] in Q15.
    pub fn next(&mut self, modulation: i16) -> (r: Option<i16>)
        requires
            old(self).wf(),
        ensures
            final(self).wf(),
            final(self).scale() == old(self).scale(),
            final(self).format() == old(self).format(),
            final(self).duration() == old(self).duration(),
            final(self).budget() == old(self).budget(),
            final(self).modulation_frequency() == old(self).modulation_frequency(),
            final(self).modulation_depth() == old(self).modulation_depth(),
            final(self).amplitude() == old(self).amplitude(),
            final(self).cycle() == old(self).cycle(),
            final(self).phase() < final(self).cycle(),
            final(self).note_index() < SCALE_LEN,
            old(self).emitted() < old(self).budget() ==> {
                let note_index = (old(self).note_index() + 1) % (SCALE_LEN as nat);
                let target = old(self).scale()[note_index as int] + modulation_offset(
                    modulation as int,
                    old(self).modulation_depth() as int,
                );
                &&& r == Some(
                    saw_value(
                        old(self).phase() as int,
                        old(self).amplitude(),
                        old(self).cycle() as int,
                    ) as i16,
                )
                &&& final(self).note_index() == note_index
                &&& old(self).scale().contains(snap_of(old(self).scale(), target))
                &&& final(self).phase() == phase_step(
                    old(self).phase() as int,
                    snap_of(old(self).scale(), target) as int,
                    old(self).cycle() as int,
                )
                &&& final(self).emitted() == old(self).emitted() + 1
            },
            old(self).emitted() >= old(self).budget() ==> r is None && *final(self) == *old(self),
    {
        if self.samples_generated >= self.total {
            return None;
        }
        self.samples_generated = self.samples_generated + 1;
        let offset: i64 = frequency_offset(modulation, self.modulation_depth);
        let note: u64 = self.next_note_frequency();
        let snapped: u64 = self.snap_to_nearest_note(note as i64 + offset);
        let sample: i16 = saw_sample(self.phase, self.amplitude, self.cycle);
        self.phase = advance_phase(self.phase, snapped as i64, self.cycle);
        Some(sample)
    }

    /// Frames have no fixed length in this stream.
    pub fn current_frame_len(&self) -> (r: Option<usize>)
        ensures
            r is None,
    {
        None
    }

    pub fn channels(&self) -> (r: u16)
        ensures
            r == self.format().channels,
    {
        self.channels
    }

    pub fn sample_rate(&self) -> (r: u32)
        ensures
            r == self.format().sample_rate,
    {
        self.sample_rate
    }

    pub fn total_duration(&self) -> (r: Option<StreamDuration>)
        ensures
            r == Some(self.duration()),
    {
        Some(self.duration)
    }
}

/// The distance between a note and a frequency.
fn abs_diff(note: u64, frequency: i64) -> (r: u64)
    requires
        note <= MAX_NOTE,
    ensures
        r == distance(note as int, frequency as int),
{
    let a: i128 = note as i128;
    let f: i128 = frequency as i128;
    if a >= f {
        (a - f) as u64
    } else {
        (f - a) as u64
    }
}

} // verus!

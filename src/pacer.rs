use crate::format::{samples_per_second, AudioFormat, NANOS_PER_SEC};
use vstd::prelude::*;

verus! {

/// Interleaved samples in one chunk: a tenth of a second of every channel
/// (at least one sample per channel).
pub open spec fn chunk_len_of(format: AudioFormat) -> nat {
    let per_channel = format.sample_rate as nat / 10;
    (if per_channel == 0 {
        1
    } else {
        per_channel
    }) * format.channels as nat
}

/// Nanoseconds that `count` interleaved samples take to play, rounded down.
pub open spec fn expected_elapsed_nanos(format: AudioFormat, count: nat) -> nat {
    count * NANOS_PER_SEC as nat / format.samples_per_second()
}

/// How long a producer that has handed off `count` samples after `elapsed` nanoseconds
/// of wall-clock time waits before it goes on: the lead over real time, saturated at
/// `u64::MAX`, or nothing when it is not ahead.
pub open spec fn delay_for(format: AudioFormat, count: nat, elapsed: nat) -> nat {
    let expected = expected_elapsed_nanos(format, count);
    if expected > elapsed {
        if expected - elapsed > u64::MAX {
            u64::MAX as nat
        } else {
            (expected - elapsed) as nat
        }
    } else {
        0
    }
}

/// Buffered pacer: gathers samples into fixed-size chunks, in order, and says how long
/// the producer should wait to stay in step with real time.
pub struct Pacer {
    sample_rate: u32,
    channels: u16,
    chunk_len: u64,
    pending: Vec<i16>,
    handed_off: u64,
    pushed: Ghost<Seq<i16>>,
    released: Ghost<Seq<i16>>,
}

impl Pacer {
    pub closed spec fn format(&self) -> AudioFormat {
        AudioFormat { sample_rate: self.sample_rate, channels: self.channels }
    }

    pub closed spec fn chunk_len(&self) -> nat {
        self.chunk_len as nat
    }

    /// Every sample pushed so far, in order.
    pub closed spec fn pushed(&self) -> Seq<i16> {
        self.pushed@
    }

    /// The concatenation of every chunk released so far.
    pub closed spec fn released(&self) -> Seq<i16> {
        self.released@
    }

    /// Samples waiting for their chunk to fill.
    pub closed spec fn pending(&self) -> Seq<i16> {
        self.pending@
    }

    pub closed spec fn wf(&self) -> bool {
        &&& self.format().valid()
        &&& self.chunk_len as nat == chunk_len_of(self.format())
        &&& self.pending@.len() < self.chunk_len
        &&& self.released@ + self.pending@ == self.pushed@
        &&& self.handed_off as nat == self.released@.len()
        &&& self.pushed@.len() <= u64::MAX
    }

    pub fn new(format: AudioFormat) -> (r: Pacer)
        requires
            format.valid(),
        ensures
            r.wf(),
            r.format() == format,
            r.chunk_len() == chunk_len_of(format),
            r.pushed() == Seq::<i16>::empty(),
            r.released() == Seq::<i16>::empty(),
    {
        let per_channel: u32 = format.sample_rate / 10;
        let per_channel: u64 = if per_channel == 0 {
            1
        } else {
            per_channel as u64
        };
        assert(per_channel * format.channels as u64 <= 0xffff_ffff * 0xffff) by (nonlinear_arith)
            requires
                per_channel <= 0xffff_ffff,
                format.channels <= 0xffff,
        ;
        assert(per_channel * format.channels as u64 > 0) by (nonlinear_arith)
            requires
                per_channel > 0,
                format.channels > 0,
        ;
        let chunk_len: u64 = per_channel * format.channels as u64;
        Pacer {
            sample_rate: format.sample_rate,
            channels: format.channels,
            chunk_len,
            pending: Vec::new(),
            handed_off: 0,
            pushed: Ghost(Seq::empty()),
            released: Ghost(Seq::empty()),
        }
    }

    /// Adds one sample; when it fills the chunk, the chunk is released.
    pub fn push(&mut self, sample: i16) -> (r: Option<Vec<i16>>)
        requires
            old(self).wf(),
            old(self).pushed().len() < u64::MAX,
        ensures
            final(self).wf(),
            final(self).format() == old(self).format(),
            final(self).pushed() == old(self).pushed().push(sample),
            old(self).pending().len() + 1 == old(self).chunk_len() ==> {
                &&& r is Some
                &&& r->Some_0@ == old(self).pending().push(sample)
                &&& final(self).released() == old(self).released() + r->Some_0@
                &&& final(self).pending() == Seq::<i16>::empty()
            },
            old(self).pending().len() + 1 < old(self).chunk_len() ==> {
                &&& r is None
                &&& final(self).released() == old(self).released()
                &&& final(self).pending() == old(self).pending().push(sample)
            },
    {
        self.pending.push(sample);
        self.pushed = Ghost(self.pushed@.push(sample));
        if self.pending.len() as u64 == self.chunk_len {
            let mut chunk: Vec<i16> = Vec::new();
            core::mem::swap(&mut chunk, &mut self.pending);
            self.released = Ghost(self.released@ + chunk@);
            self.handed_off = self.handed_off + chunk.len() as u64;
            assert(self.released@ + self.pending@ =~= self.pushed@);
            Some(chunk)
        } else {
            assert(self.released@ + self.pending@ =~= self.pushed@);
            None
        }
    }

    /// Releases the partial last chunk, if any. Afterwards every pushed sample has
    /// been released, in the order it was pushed.
    pub fn finish(&mut self) -> (r: Option<Vec<i16>>)
        requires
            old(self).wf(),
        ensures
            final(self).wf(),
            final(self).format() == old(self).format(),
            final(self).pushed() == old(self).pushed(),
            final(self).released() == final(self).pushed(),
            final(self).pending() == Seq::<i16>::empty(),
            old(self).pending().len() > 0 ==> r is Some && r->Some_0@ == old(self).pending(),
            old(self).pending().len() == 0 ==> r is None,
    {
        if self.pending.len() == 0 {
            assert(self.released@ =~= self.pushed@);
            return None;
        }
        let mut chunk: Vec<i16> = Vec::new();
        core::mem::swap(&mut chunk, &mut self.pending);
        assert(self.released@.len() + chunk@.len() == self.pushed@.len());
        self.released = Ghost(self.released@ + chunk@);
        self.handed_off = self.handed_off + chunk.len() as u64;
        assert(self.released@ + self.pending@ =~= self.pushed@);
        Some(chunk)
    }

    /// How long, in nanoseconds, the producer waits after `elapsed_nanos` of
    /// wall-clock time since the stream started: the amount by which the released
    /// samples run ahead of real time, or zero.
    pub fn delay_nanos(&self, elapsed_nanos: u64) -> (r: u64)
        requires
            self.wf(),
        ensures
            r == delay_for(self.format(), self.released().len(), elapsed_nanos as nat),
    {
        let per_sec = samples_per_second(&AudioFormat {
            sample_rate: self.sample_rate,
            channels: self.channels,
        });
        assert(self.handed_off as u128 * NANOS_PER_SEC as u128 <= 0xffff_ffff_ffff_ffff
            * 1_000_000_000) by (nonlinear_arith)
            requires
                self.handed_off <= 0xffff_ffff_ffff_ffff,
        ;
        let expected: u128 = self.handed_off as u128 * NANOS_PER_SEC as u128 / per_sec as u128;
        if expected > elapsed_nanos as u128 {
            let lead: u128 = expected - elapsed_nanos as u128;
            if lead > u64::MAX as u128 {
                u64::MAX
            } else {
                lead as u64
            }
        } else {
            0
        }
    }
}

} // verus!

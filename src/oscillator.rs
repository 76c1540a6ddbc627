use vstd::prelude::*;

verus! {

/// Frequencies are given in millihertz; one oscillator cycle is `sample_rate * 1000`
/// phase units, so a phase of `p` units stands for the fraction `p / cycle` of a period.
pub const MILLIHERTZ_PER_HERTZ: u64 = 1000;

/// Modulation samples are sine values in Q15: `32768` stands for `1.0`.
pub const MODULATION_ONE: i64 = 32768;

/// Phase units in one cycle at `sample_rate`.
pub open spec fn cycle_of(sample_rate: nat) -> nat {
    sample_rate * MILLIHERTZ_PER_HERTZ as nat
}

/// One step of the phase accumulator: advance by `frequency` and wrap into `[0, cycle)`.
pub open spec fn phase_step(phase: int, frequency: int, cycle: int) -> int {
    (phase + frequency) % cycle
}

/// The phase of a fixed-frequency sawtooth after `k` samples, started at phase zero.
pub open spec fn saw_phase_at(frequency: int, cycle: int, k: nat) -> int {
    (k * frequency) % cycle
}

/// The phase of a frequency-modulated sawtooth after `k` samples, started at phase
/// zero, where `modulations[i]` modulated the step after sample `i`.
pub open spec fn fm_phase_at(
    base: int,
    depth: int,
    modulations: Seq<i16>,
    cycle: int,
    k: nat,
) -> int
    decreases k,
{
    if k == 0 {
        0
    } else {
        phase_step(
            fm_phase_at(base, depth, modulations, cycle, (k - 1) as nat),
            base + modulation_offset(modulations[k - 1] as int, depth),
            cycle,
        )
    }
}

/// The quotient `a / b` (for `b > 0`) rounded to the nearest integer, halves away
/// from zero.
pub open spec fn div_round(a: int, b: int) -> int {
    if a >= 0 {
        (2 * a + b) / (2 * b)
    } else {
        -((-2 * a + b) / (2 * b))
    }
}

/// Saturation into the signed 16-bit range.
pub open spec fn clamp_i16(x: int) -> int {
    if x < i16::MIN {
        i16::MIN as int
    } else if x > i16::MAX {
        i16::MAX as int
    } else {
        x
    }
}

/// The sample a sawtooth emits at `phase`: `phase / cycle * amplitude`, rounded to
/// the nearest integer (halves away from zero) and saturated into the 16-bit range.
pub open spec fn saw_value(phase: int, amplitude: int, cycle: int) -> int {
    clamp_i16(div_round(phase * amplitude, cycle))
}

/// The frequency offset that a modulation sample in Q15 produces at `depth`,
/// rounded down.
pub open spec fn modulation_offset(modulation: int, depth: int) -> int {
    (modulation * depth) / (MODULATION_ONE as int)
}

/// Computes the phase units in one cycle at `sample_rate`.
pub fn cycle_units(sample_rate: u32) -> (r: u64)
    ensures
        r == cycle_of(sample_rate as nat),
        r <= 0xffff_ffff * 1000,
        sample_rate > 0 ==> r > 0,
{
    sample_rate as u64 * MILLIHERTZ_PER_HERTZ
}

/// Advances `phase` by `frequency` (which may be negative) and wraps into `[0, cycle)`.
pub fn advance_phase(phase: u64, frequency: i64, cycle: u64) -> (r: u64)
    requires
        phase < cycle,
        cycle <= 0xffff_ffff * 1000,
    ensures
        r == phase_step(phase as int, frequency as int, cycle as int),
        r < cycle,
{
    let step: u64 = if frequency >= 0 {
        (frequency as u64) % cycle
    } else {
        let m: u64 = ((-(frequency as i128)) as u64) % cycle;
        if m == 0 {
            0
        } else {
            cycle - m
        }
    };
    assert(step as int == (frequency as int) % (cycle as int)) by {
        if frequency < 0 {
            let a = -(frequency as int);
            let m = a % (cycle as int);
            vstd::arithmetic::div_mod::lemma_fundamental_div_mod(a, cycle as int);
            let q = a / (cycle as int);
            if m == 0 {
                assert(frequency as int == (-q) * cycle as int) by (nonlinear_arith)
                    requires a == (cycle as int) * q, frequency as int == -a;
                vstd::arithmetic::div_mod::lemma_mod_multiples_basic(-q, cycle as int);
            } else {
                assert(frequency as int == (-q - 1) * cycle as int + (cycle as int - m))
                    by (nonlinear_arith)
                    requires a == (cycle as int) * q + m, frequency as int == -a;
                vstd::arithmetic::div_mod::lemma_mod_multiples_vanish(
                    -q - 1,
                    cycle as int - m,
                    cycle as int,
                );
                vstd::arithmetic::div_mod::lemma_small_mod(
                    (cycle as int - m) as nat,
                    cycle as nat,
                );
            }
        }
    }
    proof {
        vstd::arithmetic::div_mod::lemma_add_mod_noop(phase as int, frequency as int, cycle as int);
        vstd::arithmetic::div_mod::lemma_small_mod(phase as nat, cycle as nat);
    }
    (phase + step) % cycle
}

/// The sample a sawtooth emits at `phase`.
pub fn saw_sample(phase: u64, amplitude: i32, cycle: u64) -> (r: i16)
    requires
        phase < cycle,
        cycle <= 0xffff_ffff * 1000,
    ensures
        r as int == saw_value(phase as int, amplitude as int, cycle as int),
{
    let magnitude: u64 = if amplitude >= 0 {
        amplitude as u64
    } else {
        (-(amplitude as i64)) as u64
    };
    assert(phase as u128 * magnitude as u128 <= 0xffff_ffff_ffff_ffff * 0x8000_0000) by (nonlinear_arith)
        requires
            phase <= 0xffff_ffff_ffff_ffff,
            magnitude <= 0x8000_0000,
    ;
    let product: u128 = phase as u128 * magnitude as u128;
    let q: u128 = (2 * product + cycle as u128) / (2 * cycle as u128);
    assert(q <= magnitude) by (nonlinear_arith)
        requires
            q == (2 * product + cycle) as int / (2 * cycle) as int,
            product == phase * magnitude,
            phase < cycle,
            magnitude >= 0,
    {
        assert(product <= (cycle - 1) * magnitude) by (nonlinear_arith)
            requires
                product == phase * magnitude,
                phase <= cycle - 1,
                magnitude >= 0,
        ;
        assert(2 * product + cycle < (2 * cycle) * (magnitude + 1)) by (nonlinear_arith)
            requires
                product <= (cycle - 1) * magnitude,
                magnitude >= 0,
                cycle > 0,
        ;
        vstd::arithmetic::div_mod::lemma_div_is_ordered(
            2 * product + cycle,
            (2 * cycle) * (magnitude + 1) - 1,
            2 * cycle,
        );
        vstd::arithmetic::div_mod::lemma_fundamental_div_mod(
            (2 * cycle) * (magnitude + 1) - 1,
            2 * cycle,
        );
    }
    assert((phase as int * amplitude as int) == if amplitude >= 0 {
        product as int
    } else {
        -(product as int)
    }) by (nonlinear_arith)
        requires
            product == phase * magnitude,
            amplitude >= 0 ==> magnitude == amplitude,
            amplitude < 0 ==> magnitude == -amplitude,
    ;
    assert(div_round(phase as int * amplitude as int, cycle as int) == if amplitude >= 0 {
        q as int
    } else {
        -(q as int)
    }) by {
        if amplitude < 0 && product == 0 {
            vstd::arithmetic::div_mod::lemma_basic_div(cycle as int, 2 * cycle as int);
            assert(q == 0);
        }
    }
    let v: i64 = if amplitude >= 0 {
        q as i64
    } else {
        -(q as i64)
    };
    if v < i16::MIN as i64 {
        i16::MIN
    } else if v > i16::MAX as i64 {
        i16::MAX
    } else {
        v as i16
    }
}

/// The frequency offset, in millihertz, of a modulation sample at `depth`.
pub fn frequency_offset(modulation: i16, depth: u32) -> (r: i64)
    ensures
        r == modulation_offset(modulation as int, depth as int),
        -(depth as int) <= r <= depth,
{
    // Shift the product to be non-negative so that the division rounds down.
    let base: u64 = (modulation as i64 + MODULATION_ONE) as u64;
    assert(base * depth as u64 <= 0xffff * 0xffff_ffff) by (nonlinear_arith)
        requires
            base <= 0xffff,
            depth <= 0xffff_ffff,
    ;
    let shifted: u64 = (modulation as i64 + MODULATION_ONE) as u64 * depth as u64;
    let q: u64 = shifted / MODULATION_ONE as u64;
    assert(q as int - depth as int == modulation_offset(modulation as int, depth as int))
        by (nonlinear_arith)
        requires
            shifted == (modulation + 32768) * depth,
            q == shifted as int / 32768,
    {
        assert(shifted == modulation as int * depth as int + depth as int * 32768) by (nonlinear_arith)
            requires shifted == (modulation + 32768) * depth;
        vstd::arithmetic::div_mod::lemma_hoist_over_denominator(
            modulation as int * depth as int,
            depth as int,
            32768,
        );
    }
    assert(-(depth as int) <= modulation_offset(modulation as int, depth as int) <= depth)
        by (nonlinear_arith)
        requires
            -32768 <= modulation <= 32767,
            depth >= 0,
    ;
    q as i64 - depth as i64
}

/// Without modulation depth, a frequency-modulated sawtooth follows the plain
/// sawtooth of its base frequency, whatever the modulation samples were.
pub proof fn lemma_zero_depth_is_plain_saw(base: int, modulations: Seq<i16>, cycle: int, k: nat)
    requires
        cycle > 0,
    ensures
        fm_phase_at(base, 0, modulations, cycle, k) == saw_phase_at(base, cycle, k),
    decreases k,
{
    if k == 0 {
        vstd::arithmetic::div_mod::lemma_small_mod(0, cycle as nat);
    } else {
        let j = (k - 1) as nat;
        lemma_zero_depth_is_plain_saw(base, modulations, cycle, j);
        assert(modulation_offset(modulations[k - 1] as int, 0) == 0);
        assert(k * base == j * base + base) by (nonlinear_arith)
            requires
                k == j + 1,
        ;
        vstd::arithmetic::div_mod::lemma_add_mod_noop(j * base, base, cycle);
        vstd::arithmetic::div_mod::lemma_add_mod_noop((j * base) % cycle, base, cycle);
        vstd::arithmetic::div_mod::lemma_mod_twice(j * base, cycle);
    }
}

/// A sawtooth whose frequency is a whole fraction `cycle / n` of the sample rate
/// repeats itself every `n` samples, from the first sample on.
pub proof fn lemma_saw_periodic(frequency: int, cycle: int, n: nat, k: nat)
    requires
        cycle > 0,
        n > 0,
        (n * frequency) % cycle == 0,
    ensures
        saw_phase_at(frequency, cycle, k + n) == saw_phase_at(frequency, cycle, k),
{
    assert((k + n) * frequency == k * frequency + n * frequency) by (nonlinear_arith);
    vstd::arithmetic::div_mod::lemma_add_mod_noop(k * frequency, n * frequency, cycle);
    vstd::arithmetic::div_mod::lemma_mod_twice(k * frequency, cycle);
}

} // verus!

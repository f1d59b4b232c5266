//! Small deterministic SplitMix64 generator used for reproducible gameplay rolls.

use vstd::prelude::*;
use vstd::arithmetic::div_mod::lemma_fundamental_div_mod_converse;
use vstd::wrapping::u64_specs;

verus! {

/// Increment added to the state before every output.
pub const GAMMA: u64 = 0x9E37_79B9_7F4A_7C15;

pub const MIX_MUL_1: u64 = 0xBF58_476D_1CE4_E5B9;

pub const MIX_MUL_2: u64 = 0x94D0_49BB_1331_11EB;

/// The state whose mixed output is `u64::MAX`.
const SATURATING_STATE: u64 = 0xCF9A_04AF_FA6B_ADC0;

/// Multiplicative inverse of `GAMMA` modulo 2^64.
const GAMMA_INVERSE: u64 = 0xF1DE_83E1_9937_733D;

/// The SplitMix64 output function applied to an advanced state.
pub open spec fn mix(z: u64) -> u64 {
    let a = z ^ (z >> 30u64);
    let b = u64_specs::wrapping_mul(a, MIX_MUL_1);
    let c = b ^ (b >> 27u64);
    let d = u64_specs::wrapping_mul(c, MIX_MUL_2);
    d ^ (d >> 31u64)
}

/// The state after one draw.
pub open spec fn advance(state: u64) -> u64 {
    u64_specs::wrapping_add(state, GAMMA)
}

/// The value that the next draw from `state` yields.
pub open spec fn output(state: u64) -> u64 {
    mix(advance(state))
}

/// Outputs below this bound are rejected so that `value % upper` carries no modulo bias.
pub open spec fn rejection_threshold(upper: u64) -> u64
    recommends
        upper > 0,
{
    ((0x1_0000_0000_0000_0000 - upper) % (upper as int)) as u64
}

/// How many advances take `x` to `SATURATING_STATE`.
pub closed spec fn distance_to_saturation(x: u64) -> nat {
    (((SATURATING_STATE - x) * GAMMA_INVERSE) % 0x1_0000_0000_0000_0000) as nat
}

/// Draws left until the generator emits `u64::MAX`, which every rejection bound accepts.
pub closed spec fn draws_to_saturation(state: u64) -> nat {
    distance_to_saturation(advance(state))
}

proof fn lemma_saturating_state_mixes_to_max()
    ensures
        mix(SATURATING_STATE) == u64::MAX,
{
    let z = SATURATING_STATE;
    assert(z ^ (z >> 30u64) == 0xcf9a04acc403bf7fu64) by (bit_vector)
        requires
            z == 0xCF9A_04AF_FA6B_ADC0u64,
    ;
    assert(u64_specs::wrapping_mul(0xcf9a04acc403bf7fu64, MIX_MUL_1) == 0xf027aa8c721dfdc7u64);
    let b = 0xf027aa8c721dfdc7u64;
    assert(b ^ (b >> 27u64) == 0xf027aa9276e8ac49u64) by (bit_vector)
        requires
            b == 0xf027aa8c721dfdc7u64,
    ;
    assert(u64_specs::wrapping_mul(0xf027aa9276e8ac49u64, MIX_MUL_2) == 0xfffffffe00000003u64);
    let d = 0xfffffffe00000003u64;
    assert(d ^ (d >> 31u64) == 0xffffffffffffffffu64) by (bit_vector)
        requires
            d == 0xfffffffe00000003u64,
    ;
}

/// Advancing any state other than the saturating one brings it one draw closer.
proof fn lemma_distance_steps_down(x: u64)
    requires
        x != SATURATING_STATE,
    ensures
        distance_to_saturation(x) > 0,
        distance_to_saturation(advance(x)) == distance_to_saturation(x) - 1,
{
    let m: int = 0x1_0000_0000_0000_0000;
    let g: int = GAMMA as int;
    let gi: int = GAMMA_INVERSE as int;
    let q: int = 10771413168148108919;
    let diff: int = SATURATING_STATE - x;
    assert(g * gi == 1 + q * m);
    let a: int = diff * gi;
    let d: int = a % m;
    let t: int = a / m;
    assert(a == t * m + d && 0 <= d < m) by {
        vstd::arithmetic::div_mod::lemma_fundamental_div_mod(a, m);
        vstd::arithmetic::div_mod::lemma_mod_bound(a, m);
    }
    if d == 0 {
        assert(diff * (g * gi) == (t * m) * g) by (nonlinear_arith)
            requires
                a == diff * gi,
                a == t * m,
        ;
        assert(diff == (t * g - diff * q) * m) by (nonlinear_arith)
            requires
                diff * (g * gi) == (t * m) * g,
                g * gi == 1 + q * m,
        ;
        assert(false) by (nonlinear_arith)
            requires
                diff == (t * g - diff * q) * m,
                -m < diff < m,
                diff != 0,
                m > 0,
        ;
    }
    let next = advance(x);
    let c: int = if x + g > u64::MAX { 1 } else { 0 };
    assert(next == x + g - c * m);
    let a2: int = (SATURATING_STATE - next) * gi;
    assert(a2 == (d - 1) + (t - q + c * gi) * m) by (nonlinear_arith)
        requires
            a2 == (SATURATING_STATE - next) * gi,
            next == x + g - c * m,
            diff == SATURATING_STATE - x,
            diff * gi == t * m + d,
            g * gi == 1 + q * m,
    ;
    lemma_fundamental_div_mod_converse(a2, m, t - q + c * gi, d - 1);
}

/// The outcome of rejection sampling from `state`: the accepted value reduced below `upper`,
/// and the state after the accepting draw.
pub open spec fn rejection_sample(state: u64, upper: u64) -> (u64, u64)
    recommends
        upper > 0,
    decreases draws_to_saturation(state),
{
    let next = advance(state);
    let value = mix(next);
    if upper == 0 {
        (0, next)
    } else if value >= rejection_threshold(upper) {
        ((value % upper) as u64, next)
    } else {
        proof {
            lemma_rejection_makes_progress(state, upper);
        }
        rejection_sample(next, upper)
    }
}

pub proof fn lemma_rejection_makes_progress(state: u64, upper: u64)
    requires
        upper > 0,
        output(state) < rejection_threshold(upper),
    ensures
        draws_to_saturation(advance(state)) < draws_to_saturation(state),
{
    lemma_saturating_state_mixes_to_max();
    let next = advance(state);
    assert(next != SATURATING_STATE);
    lemma_distance_steps_down(next);
}

/// Rejection sampling lands below its bound.
pub proof fn lemma_rejection_sample_below(state: u64, upper: u64)
    requires
        upper > 0,
    ensures
        rejection_sample(state, upper).0 < upper,
    decreases draws_to_saturation(state),
{
    let next = advance(state);
    if mix(next) < rejection_threshold(upper) {
        lemma_rejection_makes_progress(state, upper);
        lemma_rejection_sample_below(next, upper);
    }
}

/// An inclusive range draw lands in its range.
pub proof fn lemma_range_sample_bounds(state: u64, start: u64, end: u64)
    requires
        start <= end,
    ensures
        start <= range_sample(state, start, end).0 <= end,
{
    let width = u64_specs::wrapping_add(u64_specs::wrapping_sub(end, start), 1);
    if width != 0 {
        assert(width == end - start + 1);
        lemma_rejection_sample_below(state, width);
    }
}

/// The outcome of an inclusive range draw from `state`: the value and the state afterwards.
pub open spec fn range_sample(state: u64, start: u64, end: u64) -> (u64, u64) {
    let width = u64_specs::wrapping_add(u64_specs::wrapping_sub(end, start), 1);
    if width == 0 {
        (output(state), advance(state))
    } else {
        let (value, next) = rejection_sample(state, width);
        ((start + value) as u64, next)
    }
}

/// Deterministic SplitMix64 generator; equal seeds yield equal sequences.
#[derive(Clone, Copy, Debug)]
pub struct Rng(u64);

impl View for Rng {
    type V = u64;

    closed spec fn view(&self) -> u64 {
        self.0
    }
}

impl Rng {
    pub fn new(seed: u64) -> (rng: Self)
        ensures
            rng@ == seed,
    {
        Rng(seed)
    }

    pub fn next_u64(&mut self) -> (value: u64)
        ensures
            final(self)@ == advance(old(self)@),
            value == mix(final(self)@),
    {
        self.0 = self.0.wrapping_add(GAMMA);
        let z = self.0;
        let b = (z ^ (z >> 30u64)).wrapping_mul(MIX_MUL_1);
        let d = (b ^ (b >> 27u64)).wrapping_mul(MIX_MUL_2);
        d ^ (d >> 31u64)
    }

    pub fn next_u32(&mut self) -> (value: u32)
        ensures
            final(self)@ == advance(old(self)@),
            value == (output(old(self)@) as u32),
    {
        let wide = self.next_u64();
        wide as u32
    }

    /// Rejection sampling avoids modulo bias for bounds that do not divide `u64::MAX + 1`.
    pub fn below(&mut self, upper: u64) -> (value: u64)
        requires
            upper > 0,
        ensures
            (value, final(self)@) == rejection_sample(old(self)@, upper),
            value < upper,
    {
        let threshold = 0u64.wrapping_sub(upper) % upper;
        loop
            invariant
                upper > 0,
                threshold == rejection_threshold(upper),
                rejection_sample(self@, upper) == rejection_sample(old(self)@, upper),
            decreases draws_to_saturation(self@),
        {
            let ghost before = self@;
            let value = self.next_u64();
            if value >= threshold {
                return value % upper;
            }
            proof {
                lemma_rejection_makes_progress(before, upper);
            }
        }
    }

    /// Draws uniformly from `start..=end`; the full `u64` range takes one raw draw.
    pub fn range_inclusive(&mut self, start: u64, end: u64) -> (value: u64)
        requires
            start <= end,
        ensures
            (value, final(self)@) == range_sample(old(self)@, start, end),
            start <= value <= end,
    {
        let width = end.wrapping_sub(start).wrapping_add(1);
        if width == 0 {
            return self.next_u64();
        }
        start + self.below(width)
    }
}

} // verus!

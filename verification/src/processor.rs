//! Per-sample signal processors and the ordered processor chain that a
//! capture callback runs over each audio block.
//!
//! Samples are fixed-point integers: an amplitude of one full scale is
//! `SAMPLE_UNIT` steps, so a sample is valid hardware output exactly when it
//! lies in `[-SAMPLE_UNIT, SAMPLE_UNIT]`. Gain factors and gate thresholds
//! use the same scale. Integer samples keep every processor total, exact and
//! allocation-free, which is what the real-time audio thread demands.

use vstd::prelude::*;
use vstd::arithmetic::div_mod::lemma_div_by_multiple;
use vstd::arithmetic::div_mod::lemma_div_is_ordered;
use vstd::arithmetic::div_mod::lemma_div_pos_is_pos;
use vstd::arithmetic::mul::lemma_mul_nonnegative;
use vstd::arithmetic::mul::lemma_mul_upper_bound;

verus! {

/// Number of fixed-point steps that stand for an amplitude of one full scale.
pub const SAMPLE_UNIT: i64 = 1_000_000;

/// Magnitude of a sample value.
pub open spec fn mag(x: int) -> int {
    if x < 0 {
        -x
    } else {
        x
    }
}

/// Hard limit to full scale, applied after gain so that an overdriven block
/// cannot leave the valid sample range.
pub open spec fn clamp_full_scale(v: int) -> int {
    if v > SAMPLE_UNIT as int {
        SAMPLE_UNIT as int
    } else if v < -(SAMPLE_UNIT as int) {
        -(SAMPLE_UNIT as int)
    } else {
        v
    }
}

/// The scaled product of a sample and a gain factor, before clamping:
/// magnitudes multiply and are rescaled by `SAMPLE_UNIT` (truncating toward
/// zero), and the sign is the sign of the real product.
pub open spec fn gain_raw(x: int, f: int) -> int {
    if (x < 0) != (f < 0) {
        -(mag(x) * mag(f) / (SAMPLE_UNIT as int))
    } else {
        mag(x) * mag(f) / (SAMPLE_UNIT as int)
    }
}

/// One sample through the gain stage: scale, then hard-limit to full scale.
pub open spec fn gain_sample(x: int, f: int) -> int {
    clamp_full_scale(gain_raw(x, f))
}

/// One sample through the noise gate: silenced exactly when its square is
/// strictly below the threshold's square, otherwise passed through unchanged.
pub open spec fn gate_sample(x: int, t: int) -> int {
    if x * x < t * t {
        0
    } else {
        x
    }
}

/// A whole block through the gain stage.
pub open spec fn gain_applied(s: Seq<i64>, f: int) -> Seq<i64> {
    Seq::new(s.len(), |i: int| gain_sample(s[i] as int, f) as i64)
}

/// A whole block through the noise gate.
pub open spec fn gate_applied(s: Seq<i64>, t: int) -> Seq<i64> {
    Seq::new(s.len(), |i: int| gate_sample(s[i] as int, t) as i64)
}

/// Magnitude of a sample, computed without overflow (the magnitude of the
/// most negative value still fits unsigned).
fn mag_exec(x: i64) -> (m: u128)
    ensures
        m == mag(x as int),
        m <= 0x8000_0000_0000_0000u128,
{
    if x >= 0 {
        x as u128
    } else {
        (-(x as i128)) as u128
    }
}

/// One sample through the gain stage, exactly as `gain_sample` describes.
fn gain_one(x: i64, g: i64) -> (r: i64)
    ensures
        r as int == gain_sample(x as int, g as int),
{
    let xm = mag_exec(x);
    let gm = mag_exec(g);
    proof {
        assert(xm * gm <= 0x8000_0000_0000_0000u128 * 0x8000_0000_0000_0000u128)
            by (nonlinear_arith)
            requires
                xm <= 0x8000_0000_0000_0000u128,
                gm <= 0x8000_0000_0000_0000u128,
        {}
    }
    let prod: u128 = xm * gm;
    let q: u128 = prod / (SAMPLE_UNIT as u128);
    let limited: u128 = if q > SAMPLE_UNIT as u128 {
        SAMPLE_UNIT as u128
    } else {
        q
    };
    let neg = (x < 0) != (g < 0);
    if neg {
        -(limited as i64)
    } else {
        limited as i64
    }
}

/// One sample through the noise gate, exactly as `gate_sample` describes.
fn gate_one(x: i64, t: i64) -> (r: i64)
    ensures
        r as int == gate_sample(x as int, t as int),
{
    let xm = mag_exec(x);
    let tm = mag_exec(t);
    proof {
        assert(xm * xm <= 0x8000_0000_0000_0000u128 * 0x8000_0000_0000_0000u128
            && tm * tm <= 0x8000_0000_0000_0000u128 * 0x8000_0000_0000_0000u128)
            by (nonlinear_arith)
            requires
                xm <= 0x8000_0000_0000_0000u128,
                tm <= 0x8000_0000_0000_0000u128,
        {}
        assert(xm * xm == (x as int) * (x as int) && tm * tm == (t as int) * (t as int))
            by (nonlinear_arith)
            requires
                xm == x as int || xm == -(x as int),
                tm == t as int || tm == -(t as int),
        {}
    }
    let xx: u128 = xm * xm;
    let tt: u128 = tm * tm;
    if xx < tt {
        0
    } else {
        x
    }
}

/// Identity stage: hands every block through untouched.
#[derive(Clone, Copy, Debug)]
pub struct PassThroughProcessor;

impl PassThroughProcessor {
    /// Leaves the block exactly as it was, whatever its contents or length.
    pub fn process(&mut self, buffer: &mut Vec<i64>)
        ensures
            final(buffer)@ == old(buffer)@,
    {
    }
}

/// Gain stage: multiplies every sample by a fixed-point factor and
/// hard-limits the result to full scale.
#[derive(Clone, Copy, Debug)]
pub struct GainProcessor {
    pub gain: i64,
}

impl GainProcessor {
    /// A gain stage with the given fixed-point factor
    /// (`SAMPLE_UNIT` is a factor of one).
    pub fn new(gain: i64) -> (p: Self)
        ensures
            p.gain == gain,
    {
        GainProcessor { gain }
    }

    /// Scales every sample in place; the result is `gain_applied`.
    pub fn process(&mut self, buffer: &mut Vec<i64>)
        ensures
            *final(self) == *old(self),
            final(buffer)@ == gain_applied(old(buffer)@, old(self).gain as int),
    {
        let ghost orig: Seq<i64> = buffer@;
        let g = self.gain;
        let len = buffer.len();
        let mut i: usize = 0;
        while i < len
            invariant
                len == buffer@.len(),
                orig.len() == len,
                i <= len,
                forall|k: int| 0 <= k < i ==> buffer@[k] as int == gain_sample(orig[k] as int, g as int),
                forall|k: int| i <= k < len ==> buffer@[k] == orig[k],
            decreases len - i,
        {
            let y = gain_one(buffer[i], g);
            buffer.set(i, y);
            i += 1;
        }
        assert(buffer@ =~= gain_applied(orig, g as int));
    }
}

/// Noise gate: silences every sample whose magnitude is strictly below the
/// threshold amplitude (compared by squares, saving a root per sample).
#[derive(Clone, Copy, Debug)]
pub struct NoiseGateProcessor {
    pub threshold: i64,
}

impl NoiseGateProcessor {
    /// A gate with the given fixed-point threshold amplitude.
    pub fn new(threshold: i64) -> (p: Self)
        ensures
            p.threshold == threshold,
    {
        NoiseGateProcessor { threshold }
    }

    /// Gates every sample in place; the result is `gate_applied`.
    pub fn process(&mut self, buffer: &mut Vec<i64>)
        ensures
            *final(self) == *old(self),
            final(buffer)@ == gate_applied(old(buffer)@, old(self).threshold as int),
    {
        let ghost orig: Seq<i64> = buffer@;
        let t = self.threshold;
        let len = buffer.len();
        let mut i: usize = 0;
        while i < len
            invariant
                len == buffer@.len(),
                orig.len() == len,
                i <= len,
                forall|k: int| 0 <= k < i ==> buffer@[k] as int == gate_sample(orig[k] as int, t as int),
                forall|k: int| i <= k < len ==> buffer@[k] == orig[k],
            decreases len - i,
        {
            let y = gate_one(buffer[i], t);
            buffer.set(i, y);
            i += 1;
        }
        assert(buffer@ =~= gate_applied(orig, t as int));
    }
}

/// The closed set of processors a chain can hold. A single switch dispatches
/// each stage, so the real-time path makes no indirect calls and adding a
/// stage forces every match to account for it.
#[derive(Clone, Copy, Debug)]
pub enum Processor {
    PassThrough(PassThroughProcessor),
    Gain(GainProcessor),
    NoiseGate(NoiseGateProcessor),
}

/// What one processor does to a block.
pub open spec fn processor_applied(p: Processor, s: Seq<i64>) -> Seq<i64> {
    match p {
        Processor::PassThrough(_) => s,
        Processor::Gain(g) => gain_applied(s, g.gain as int),
        Processor::NoiseGate(n) => gate_applied(s, n.threshold as int),
    }
}

/// What a whole chain does to a block: each processor in order, the output
/// of one the input of the next.
pub open spec fn chain_applied(ps: Seq<Processor>, s: Seq<i64>) -> Seq<i64>
    decreases ps.len(),
{
    if ps.len() == 0 {
        s
    } else {
        chain_applied(ps.drop_first(), processor_applied(ps.first(), s))
    }
}

/// Appending a processor to a chain post-composes its effect.
pub proof fn lemma_chain_applied_push(ps: Seq<Processor>, p: Processor, s: Seq<i64>)
    ensures
        chain_applied(ps.push(p), s) == processor_applied(p, chain_applied(ps, s)),
    decreases ps.len(),
{
    if ps.len() == 0 {
        assert(ps.push(p).first() == p);
        assert(ps.push(p).drop_first() =~= Seq::<Processor>::empty());
        assert(chain_applied(ps.push(p), s) == chain_applied(
            Seq::<Processor>::empty(),
            processor_applied(p, s),
        ));
        assert(chain_applied(Seq::<Processor>::empty(), processor_applied(p, s))
            == processor_applied(p, s));
        assert(chain_applied(ps, s) == s);
    } else {
        assert(ps.push(p).first() == ps.first());
        assert(ps.push(p).drop_first() =~= ps.drop_first().push(p));
        assert(chain_applied(ps.push(p), s) == chain_applied(
            ps.drop_first().push(p),
            processor_applied(ps.first(), s),
        ));
        lemma_chain_applied_push(ps.drop_first(), p, processor_applied(ps.first(), s));
        assert(chain_applied(ps, s) == chain_applied(ps.drop_first(), processor_applied(ps.first(), s)));
    }
}

impl Processor {
    /// Runs this stage over the block in place.
    pub fn process(&mut self, buffer: &mut Vec<i64>)
        ensures
            *final(self) == *old(self),
            final(buffer)@ == processor_applied(*old(self), old(buffer)@),
    {
        let this = *self;
        match this {
            Processor::PassThrough(mut p) => p.process(buffer),
            Processor::Gain(mut p) => p.process(buffer),
            Processor::NoiseGate(mut p) => p.process(buffer),
        }
    }
}

/// An ordered sequence of processors applied to each block in insertion
/// order; the order is part of the contract, not an implementation detail.
#[derive(Debug)]
pub struct ProcessorChain {
    pub processors: Vec<Processor>,
}

impl ProcessorChain {
    /// An empty chain, which leaves every block unchanged.
    pub fn new() -> (c: Self)
        ensures
            c.processors@ == Seq::<Processor>::empty(),
    {
        let processors: Vec<Processor> = Vec::new();
        assert(processors@ =~= Seq::<Processor>::empty());
        ProcessorChain { processors }
    }

    /// Appends a processor; it will run after every processor already held.
    pub fn add_processor(&mut self, p: Processor)
        ensures
            final(self).processors@ == old(self).processors@.push(p),
    {
        self.processors.push(p);
    }

    /// Runs every processor in insertion order over the block in place.
    pub fn process(&mut self, buffer: &mut Vec<i64>)
        ensures
            *final(self) == *old(self),
            final(buffer)@ == chain_applied(old(self).processors@, old(buffer)@),
    {
        let ghost orig: Seq<i64> = buffer@;
        let ghost procs: Seq<Processor> = self.processors@;
        let n = self.processors.len();
        let mut i: usize = 0;
        while i < n
            invariant
                n == self.processors@.len(),
                self.processors@ == procs,
                i <= n,
                buffer@ == chain_applied(procs.take(i as int), orig),
            decreases n - i,
        {
            let mut p = self.processors[i];
            p.process(buffer);
            proof {
                assert(procs.take(i as int).push(procs[i as int]) =~= procs.take(i + 1));
                lemma_chain_applied_push(procs.take(i as int), procs[i as int], orig);
            }
            i += 1;
        }
        assert(procs.take(n as int) =~= procs);
    }
}

/// The gain stage never leaves the valid sample range: every output sample
/// is within one full scale in magnitude, whatever the input and factor.
pub proof fn lemma_gain_output_full_scale(s: Seq<i64>, f: int)
    ensures
        gain_applied(s, f).len() == s.len(),
        forall|i: int|
            0 <= i < s.len() ==> -(SAMPLE_UNIT as int) <= #[trigger] (gain_applied(s, f)[i] as int)
                <= SAMPLE_UNIT as int,
{
}

/// When neither the sample nor the factor exceeds one full scale, the gain
/// stage does not clamp: the output is exactly the scaled product.
pub proof fn lemma_gain_exact_in_range(x: int, f: int)
    requires
        mag(x) <= SAMPLE_UNIT as int,
        mag(f) <= SAMPLE_UNIT as int,
    ensures
        gain_sample(x, f) == gain_raw(x, f),
{
    let u = SAMPLE_UNIT as int;
    lemma_mul_nonnegative(mag(x), mag(f));
    lemma_mul_upper_bound(mag(x), u, mag(f), u);
    lemma_div_is_ordered(mag(x) * mag(f), u * u, u);
    lemma_div_by_multiple(u, u);
    lemma_div_pos_is_pos(mag(x) * mag(f), u);
}

/// Block form of the exact-gain law: with the factor and every input sample
/// within full scale, every output sample is exactly the scaled product and
/// no clamping fires.
pub proof fn lemma_gain_applied_exact_in_range(s: Seq<i64>, f: int)
    requires
        mag(f) <= SAMPLE_UNIT as int,
        forall|i: int| 0 <= i < s.len() ==> mag(#[trigger] s[i] as int) <= SAMPLE_UNIT as int,
    ensures
        forall|i: int|
            0 <= i < s.len() ==> #[trigger] (gain_applied(s, f)[i] as int) == gain_raw(s[i] as int, f),
{
    assert forall|i: int| 0 <= i < s.len() implies #[trigger] (gain_applied(s, f)[i] as int)
        == gain_raw(s[i] as int, f) by {
        lemma_gain_exact_in_range(s[i] as int, f);
    }
}

/// The squared comparison agrees with comparing magnitudes: for a
/// nonnegative threshold a sample is silenced exactly when its magnitude is
/// strictly below the threshold, and a sample at the threshold goes through.
pub proof fn lemma_gate_exact(x: int, t: int)
    requires
        0 <= t,
    ensures
        gate_sample(x, t) == if mag(x) < t {
            0
        } else {
            x
        },
{
    let m = mag(x);
    assert(m * m == x * x) by (nonlinear_arith)
        requires
            m == x || m == -x,
    {}
    assert((m < t) == (m * m < t * t)) by (nonlinear_arith)
        requires
            0 <= m,
            0 <= t,
    {}
}

/// Block form of the same statement: each output sample is zero exactly
/// where the input magnitude is strictly below the threshold, and the input
/// sample itself everywhere else.
pub proof fn lemma_gate_applied_exact(s: Seq<i64>, t: int)
    requires
        0 <= t,
    ensures
        gate_applied(s, t).len() == s.len(),
        forall|i: int|
            0 <= i < s.len() ==> #[trigger] (gate_applied(s, t)[i] as int) == if mag(s[i] as int) < t {
                0
            } else {
                s[i] as int
            },
{
    assert forall|i: int| 0 <= i < s.len() implies #[trigger] (gate_applied(s, t)[i] as int)
        == (if mag(s[i] as int) < t {
        0
    } else {
        s[i] as int
    }) by {
        lemma_gate_exact(s[i] as int, t);
    }
}

/// A chain holding no processors is the identity on every block.
pub proof fn lemma_empty_chain_identity(s: Seq<i64>)
    ensures
        chain_applied(Seq::<Processor>::empty(), s) == s,
{
}

} // verus!

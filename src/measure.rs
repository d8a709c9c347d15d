//! Throughput and latency figures.
//!
//! Figures are exact fractions; nothing is rounded until it is rendered.
use crate::fixed::Fraction;
use vstd::prelude::*;

verus! {

/// A measured wall-clock interval, in nanoseconds.
#[derive(Clone, Copy, Debug, PartialEq, Eq, Structural)]
pub struct Elapsed {
    pub nanos: u64,
}

impl Elapsed {
    /// An interval of `nanos` nanoseconds.
    pub fn from_nanos(nanos: u64) -> (r: Elapsed)
        ensures
            r.nanos == nanos,
    {
        Elapsed { nanos }
    }

    /// The whole milliseconds in the interval, rounded down.
    pub fn as_millis(&self) -> (r: u64)
        ensures
            r == self.nanos / 1_000_000,
    {
        self.nanos / 1_000_000
    }
}

/// Megabits per second for `bytes` moved in `nanos` nanoseconds, as the
/// fraction `bytes * 8000 / nanos`.
pub open spec fn mbps_num(bytes: nat) -> nat {
    bytes * 8000
}

/// Megabits per second for `bytes` bytes moved in the interval `elapsed`.
pub fn throughput_mbps(bytes: u64, elapsed: Elapsed) -> (r: Fraction)
    requires
        elapsed.nanos > 0,
    ensures
        r.wf(),
        r.num == mbps_num(bytes as nat),
        r.den == elapsed.nanos,
{
    Fraction { num: (bytes as u128) * 8000, den: elapsed.nanos }
}

/// The throughput figure is bits per second divided by one million: with the
/// interval `t = nanos / 10^9` seconds, `num / den == bytes * 8 / t / 10^6`.
pub proof fn lemma_throughput_formula(bytes: u64, nanos: u64)
    requires
        nanos > 0,
    ensures
        mbps_num(bytes as nat) * (nanos * 1_000_000) == (bytes * 8) * 1_000_000_000 * nanos,
{
    assert(mbps_num(bytes as nat) * (nanos * 1_000_000) == (bytes * 8) * 1_000_000_000 * nanos)
        by (nonlinear_arith);
}

/// Number of attempts in `s` that succeeded.
pub open spec fn success_count(s: Seq<Option<u64>>) -> nat
    decreases s.len(),
{
    if s.len() == 0 {
        0
    } else {
        success_count(s.drop_last()) + if s.last() is Some { 1nat } else { 0nat }
    }
}

/// Sum of the round-trip times, in milliseconds, of the attempts in `s` that
/// succeeded.
pub open spec fn success_total(s: Seq<Option<u64>>) -> nat
    decreases s.len(),
{
    if s.len() == 0 {
        0
    } else {
        success_total(s.drop_last()) + match s.last() {
            Some(ms) => ms as nat,
            None => 0nat,
        }
    }
}

proof fn lemma_success_bounds(s: Seq<Option<u64>>)
    ensures
        success_count(s) <= s.len(),
        success_total(s) <= s.len() * 0xffff_ffff_ffff_ffff,
    decreases s.len(),
{
    if s.len() > 0 {
        lemma_success_bounds(s.drop_last());
        assert(success_total(s) <= s.len() * 0xffff_ffff_ffff_ffff) by (nonlinear_arith)
            requires
                success_total(s) <= success_total(s.drop_last()) + 0xffff_ffff_ffff_ffff,
                success_total(s.drop_last()) <= (s.len() - 1) * 0xffff_ffff_ffff_ffff,
        ;
    }
}

/// A failed attempt counts for nothing: putting one anywhere among the
/// attempts changes neither the number of successes nor their total time, so
/// the mean is taken over the successes alone.
pub proof fn lemma_failure_ignored(s: Seq<Option<u64>>, i: int)
    requires
        0 <= i <= s.len(),
    ensures
        success_count(s.insert(i, None)) == success_count(s),
        success_total(s.insert(i, None)) == success_total(s),
    decreases s.len(),
{
    let t = s.insert(i, None);
    if i == s.len() {
        assert(t.drop_last() =~= s);
    } else {
        assert(t.drop_last() =~= s.drop_last().insert(i, None));
        assert(t.last() == s.last());
        lemma_failure_ignored(s.drop_last(), i);
    }
}

/// Mean round-trip time, in milliseconds, of the successful attempts among
/// `attempts` (`None` marks a failed one); zero when none succeeded.
pub fn ping_mean(attempts: &Vec<Option<u64>>) -> (r: Fraction)
    ensures
        r.wf(),
        success_count(attempts@) == 0 ==> r.num == 0 && r.den == 1,
        success_count(attempts@) > 0 ==> r.num == success_total(attempts@) && r.den
            == success_count(attempts@),
{
    let mut total: u128 = 0;
    let mut count: u64 = 0;
    let mut i: usize = 0;
    while i < attempts.len()
        invariant
            i <= attempts@.len(),
            total == success_total(attempts@.subrange(0, i as int)),
            count == success_count(attempts@.subrange(0, i as int)),
        decreases attempts@.len() - i,
    {
        let ghost prefix = attempts@.subrange(0, i as int);
        let ghost next = attempts@.subrange(0, i + 1);
        assert(next.drop_last() =~= prefix);
        proof {
            lemma_success_bounds(prefix);
            assert(i < 0x1_0000_0000_0000_0000);
            assert(total + 0xffff_ffff_ffff_ffff <= 0xffff_ffff_ffff_ffff_ffff_ffff_ffff_ffff)
                by (nonlinear_arith)
                requires
                    total <= prefix.len() * 0xffff_ffff_ffff_ffff,
                    prefix.len() == i,
                    i < 0xffff_ffff_ffff_ffff,
            ;
        }
        match attempts[i] {
            Some(ms) => {
                total = total + ms as u128;
                count = count + 1;
            },
            None => {},
        }
        i = i + 1;
    }
    assert(attempts@.subrange(0, attempts@.len() as int) =~= attempts@);
    if count > 0 {
        Fraction { num: total, den: count }
    } else {
        Fraction::zero()
    }
}

} // verus!

//! Arithmetic of the estimates: how much of a transfer is done, and how fast
//! it goes, in whole numbers.

use vstd::prelude::*;
use vstd::arithmetic::div_mod::lemma_fundamental_div_mod;

verus! {

/// Nanoseconds in a second: time stamps count nanoseconds on a clock that
/// never runs backwards.
pub const NANOS_PER_SECOND: u64 = 1_000_000_000;

/// The quotient of `n` by `d`, rounded to the nearest whole number; a
/// quotient halfway between two goes to the even one.
pub open spec fn round_div(n: nat, d: nat) -> nat
    recommends
        d > 0,
{
    let q = n / d;
    let r = n % d;
    if r > d - r || (r == d - r && q % 2 == 1) {
        q + 1
    } else {
        q
    }
}

/// Divides and rounds to nearest, ties to even.
pub fn rounded_div(n: u128, d: u128) -> (q: u128)
    requires
        d > 0,
    ensures
        q == round_div(n as nat, d as nat),
{
    let q: u128 = n / d;
    let r: u128 = n % d;
    if r > d - r || (r == d - r && q % 2 == 1) {
        assert(q < u128::MAX) by {
            lemma_fundamental_div_mod(n as int, d as int);
            assert(q * 2 <= d * q) by (nonlinear_arith)
                requires
                    d >= 2,
                    q >= 0,
            ;
        }
        q + 1
    } else {
        q
    }
}

/// The part of a transfer that is done, as offset over size. The size is a
/// declared one and above zero; an offset beyond it counts as the size.
#[derive(Clone, Copy, Debug, PartialEq, Eq, Structural)]
pub struct Progress {
    pub done: u64,
    pub total: u64,
}

/// The progress that an offset and a declared size stand for: none where the
/// size is zero, which means that it is not known.
pub open spec fn progress_of(pos: u64, size: u64) -> Option<Progress> {
    if size == 0 {
        None
    } else {
        Some(
            (Progress {
                done: if pos <= size {
                    pos
                } else {
                    size
                },
                total: size,
            }),
        )
    }
}

impl Progress {
    /// A progress is a fraction between zero and one.
    pub open spec fn wf(&self) -> bool {
        0 < self.total && self.done <= self.total
    }

    /// The progress in hundredths of a percent, rounded to nearest.
    pub open spec fn spec_basis_points(&self) -> nat {
        round_div(self.done as nat * 10000, self.total as nat)
    }

    /// The progress in hundredths of a percent: 10000 when all is done.
    pub fn basis_points(&self) -> (r: u64)
        requires
            self.wf(),
        ensures
            r == self.spec_basis_points(),
            r <= 10000,
    {
        let n: u128 = self.done as u128 * 10000;
        let d: u128 = self.total as u128;
        let q = rounded_div(n, d);
        proof {
            basis_points_bound(self.done as nat, self.total as nat);
        }
        q as u64
    }
}

/// A fraction of at most one has at most 10000 hundredths of a percent.
pub proof fn basis_points_bound(done: nat, total: nat)
    requires
        0 < total,
        done <= total,
    ensures
        round_div(done * 10000, total) <= 10000,
        done == total ==> round_div(done * 10000, total) == 10000,
        done == 0 ==> round_div(done * 10000, total) == 0,
{
    let n = done * 10000;
    let q = n / total;
    let r = n % total;
    lemma_fundamental_div_mod(n as int, total as int);
    if done == total {
        assert(q == 10000 && r == 0) by (nonlinear_arith)
            requires
                total * 10000 == total * q + r,
                0 <= r < total,
                0 < total,
        ;
    } else if done == 0 {
        assert(q == 0 && r == 0) by (nonlinear_arith)
            requires
                0 == total * q + r,
                0 <= r < total,
                0 < total,
                0 <= q,
        ;
    } else {
        assert(q < 10000) by (nonlinear_arith)
            requires
                done * 10000 == total * q + r,
                0 <= r < total,
                0 < done < total,
                0 <= q,
        ;
    }
}

/// The rate, in bytes per second and rounded down, at which an offset moved
/// between two samples. It is not known where no time has passed between
/// them or where the offset went back; a rate beyond 64 bits counts as the
/// largest one.
pub open spec fn throughput_of(from_pos: u64, from_time: u64, to_pos: u64, to_time: u64) -> Option<
    u64,
> {
    if to_time <= from_time || to_pos < from_pos {
        None
    } else {
        let rate = ((to_pos - from_pos) * NANOS_PER_SECOND) / (to_time - from_time);
        if rate > u64::MAX {
            Some(u64::MAX)
        } else {
            Some(rate as u64)
        }
    }
}

/// The throughput between a sample at `from_time` and one at `to_time`, both
/// in nanoseconds.
pub fn throughput(from_pos: u64, from_time: u64, to_pos: u64, to_time: u64) -> (r: Option<u64>)
    ensures
        r == throughput_of(from_pos, from_time, to_pos, to_time),
{
    if to_time <= from_time || to_pos < from_pos {
        return None;
    }
    let moved: u128 = (to_pos - from_pos) as u128;
    let elapsed: u128 = (to_time - from_time) as u128;
    let rate: u128 = (moved * (NANOS_PER_SECOND as u128)) / elapsed;
    if rate > u64::MAX as u128 {
        Some(u64::MAX)
    } else {
        Some(rate as u64)
    }
}

} // verus!

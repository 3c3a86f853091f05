//! Exact statistics over durations in whole nanoseconds.
//!
//! Values stay integers throughout: the mean is returned as a total and a
//! count, and the spread as the sum of squared deviations from the mean
//! rounded down, with the remainder of that rounding, so that nothing is
//! rounded before the caller converts. Both reductions succeed on every
//! non-empty sequence.
use vstd::prelude::*;

verus! {

/// The sum of a sequence of values.
pub open spec fn total(s: Seq<u64>) -> int
    decreases s.len(),
{
    if s.len() == 0 {
        0
    } else {
        total(s.drop_last()) + s.last()
    }
}

/// The sum of `(scale * x - center)^2` over the values `x` of a sequence.
pub open spec fn sum_sq_diff(s: Seq<u64>, scale: int, center: int) -> int
    decreases s.len(),
{
    if s.len() == 0 {
        0
    } else {
        sum_sq_diff(s.drop_last(), scale, center) + (scale * s.last() - center) * (scale
            * s.last() - center)
    }
}

/// `n^2` times the sum of squared deviations from the mean, for `n` values:
/// the sum of `(n * x - total)^2`. The population variance is this divided
/// by `n^3`, and the standard deviation its square root.
pub open spec fn scaled_sq_dev(s: Seq<u64>) -> int {
    sum_sq_diff(s, s.len() as int, total(s))
}

/// The sum of the squares of a sequence of values.
pub open spec fn sum_sq(s: Seq<u64>) -> int
    decreases s.len(),
{
    if s.len() == 0 {
        0
    } else {
        sum_sq(s.drop_last()) + s.last() * s.last()
    }
}

/// The number held in two 128-bit words, high word first.
pub open spec fn wide(hi: u128, lo: u128) -> int {
    hi * (u128::MAX as int + 1) + lo
}

/// Whether all values of a sequence are equal.
pub open spec fn all_equal(s: Seq<u64>) -> bool {
    forall|i: int, j: int| 0 <= i < s.len() && 0 <= j < s.len() ==> s[i] == s[j]
}

/// Why a statistic could not be computed.
#[derive(Debug, Clone, Copy, PartialEq, Eq, Structural)]
pub enum StatsError {
    /// The sequence has no values.
    EmptyInput,
}

/// An exact mean: `total / count`.
#[derive(Debug, Clone, Copy, PartialEq, Eq, Structural)]
pub struct Mean {
    pub total: u128,
    pub count: usize,
}

/// An exact population standard deviation of `count` values.
///
/// With `q` the mean rounded down and `remainder` the total modulo the
/// count, `sq_dev_hi * 2^128 + sq_dev_lo` is the sum of `(x - q)^2` over the
/// values `x`. The population variance is
/// `(sum - remainder^2 / count) / count`, and the deviation its square root.
#[derive(Debug, Clone, Copy, PartialEq, Eq, Structural)]
pub struct Deviation {
    pub sq_dev_hi: u128,
    pub sq_dev_lo: u128,
    pub remainder: u128,
    pub count: usize,
}

impl Deviation {
    /// `count^3` times the population variance, an integer: the quantity
    /// that `scaled_sq_dev` gives for the values described.
    pub open spec fn scaled(self) -> int {
        self.count * (self.count * wide(self.sq_dev_hi, self.sq_dev_lo) - self.remainder
            * self.remainder)
    }
}

proof fn lemma_total_bound(s: Seq<u64>)
    ensures
        0 <= total(s) <= s.len() * (u64::MAX as int),
    decreases s.len(),
{
    if s.len() > 0 {
        lemma_total_bound(s.drop_last());
    }
}

proof fn lemma_sum_sq_diff_nonneg(s: Seq<u64>, scale: int, center: int)
    ensures
        sum_sq_diff(s, scale, center) >= 0,
    decreases s.len(),
{
    if s.len() > 0 {
        lemma_sum_sq_diff_nonneg(s.drop_last(), scale, center);
        let d = scale * s.last() - center;
        assert(d * d >= 0) by (nonlinear_arith);
    }
}

/// The sum is zero exactly when every term is.
proof fn lemma_sum_sq_diff_zero(s: Seq<u64>, scale: int, center: int)
    ensures
        sum_sq_diff(s, scale, center) == 0 <==> forall|i: int|
            0 <= i < s.len() ==> scale * s[i] == center,
    decreases s.len(),
{
    if s.len() > 0 {
        let p = s.drop_last();
        lemma_sum_sq_diff_zero(p, scale, center);
        lemma_sum_sq_diff_nonneg(p, scale, center);
        let d = scale * s.last() - center;
        assert(d * d >= 0) by (nonlinear_arith);
        assert(d * d == 0 <==> d == 0) by (nonlinear_arith);
        if sum_sq_diff(s, scale, center) == 0 {
            assert forall|i: int| 0 <= i < s.len() implies scale * s[i] == center by {
                if i < s.len() - 1 {
                    assert(s[i] == p[i]);
                }
            }
        }
        if forall|i: int| 0 <= i < s.len() ==> scale * s[i] == center {
            assert forall|i: int| 0 <= i < p.len() implies scale * p[i] == center by {
                assert(s[i] == p[i]);
            }
        }
    }
}

proof fn lemma_total_constant(s: Seq<u64>, x: u64)
    requires
        forall|i: int| 0 <= i < s.len() ==> s[i] == x,
    ensures
        total(s) == s.len() * x,
    decreases s.len(),
{
    if s.len() > 0 {
        lemma_total_constant(s.drop_last(), x);
        assert(total(s) == (s.len() - 1) * x + x);
        assert((s.len() - 1) * x + x == s.len() * x) by (nonlinear_arith);
    }
}

/// The scaled squared deviation of a non-empty sequence is zero exactly
/// when all of its values are equal, so its standard deviation is zero
/// exactly then, and positive otherwise.
pub proof fn lemma_deviation_zero_iff_all_equal(s: Seq<u64>)
    requires
        s.len() > 0,
    ensures
        scaled_sq_dev(s) >= 0,
        scaled_sq_dev(s) == 0 <==> all_equal(s),
{
    let n = s.len() as int;
    lemma_sum_sq_diff_nonneg(s, n, total(s));
    lemma_sum_sq_diff_zero(s, n, total(s));
    if all_equal(s) {
        lemma_total_constant(s, s[0]);
        assert forall|i: int| 0 <= i < s.len() implies n * s[i] == total(s) by {
            assert(s[i] == s[0]);
        }
    }
    if scaled_sq_dev(s) == 0 {
        assert forall|i: int, j: int| 0 <= i < s.len() && 0 <= j < s.len() implies s[i]
            == s[j] by {
            assert(n * s[i] == n * s[j]);
            assert(n > 0);
            assert(n * s[i] == n * s[j] && n > 0 ==> s[i] == s[j]) by (nonlinear_arith);
        }
    }
}

/// The mean of the values, exactly: their total and their count.
/// Fails with `EmptyInput` on an empty sequence, and only there.
pub fn mean(values: &[u64]) -> (r: Result<Mean, StatsError>)
    ensures
        values@.len() == 0 <==> r == Err::<Mean, StatsError>(StatsError::EmptyInput),
        r is Err ==> r == Err::<Mean, StatsError>(StatsError::EmptyInput),
        r matches Ok(m) ==> m.total == total(values@) && m.count == values@.len(),
{
    if values.len() == 0 {
        return Err(StatsError::EmptyInput);
    }
    let mut sum: u128 = 0;
    let mut i: usize = 0;
    while i < values.len()
        invariant
            i <= values@.len(),
            sum == total(values@.take(i as int)),
        decreases values@.len() - i,
    {
        proof {
            let p = values@.take(i as int + 1);
            assert(p.drop_last() =~= values@.take(i as int));
            lemma_total_bound(p);
            assert((i + 1) * (u64::MAX as int) <= u128::MAX) by (nonlinear_arith)
                requires
                    i < usize::MAX,
            ;
        }
        sum = sum + values[i] as u128;
        i = i + 1;
    }
    assert(values@.take(values@.len() as int) =~= values@);
    Ok(Mean { total: sum, count: values.len() })
}

/// Expands a sum of squared differences into the sum of squares, the total
/// and the count.
proof fn lemma_sum_sq_diff_expand(s: Seq<u64>, a: int, c: int)
    ensures
        sum_sq_diff(s, a, c) == a * a * sum_sq(s) - 2 * a * c * total(s) + s.len() * c * c,
    decreases s.len(),
{
    if s.len() > 0 {
        let p = s.drop_last();
        lemma_sum_sq_diff_expand(p, a, c);
        let x = s.last() as int;
        let m = p.len() as int;
        let q = sum_sq(p);
        let t = total(p);
        assert((a * x - c) * (a * x - c) + (a * a * q - 2 * a * c * t + m * c * c) == a * a * (q
            + x * x) - 2 * a * c * (t + x) + (m + 1) * c * c) by (nonlinear_arith);
    }
}

/// The squared deviation from the rounded-down mean, corrected by the
/// remainder, gives the scaled squared deviation.
proof fn lemma_floor_center(s: Seq<u64>)
    requires
        s.len() > 0,
    ensures
        s.len() * (s.len() * sum_sq_diff(s, 1, total(s) / (s.len() as int)) - (total(s) % (
        s.len() as int)) * (total(s) % (s.len() as int))) == scaled_sq_dev(s),
{
    let n = s.len() as int;
    let t = total(s);
    let q = t / n;
    let r = t % n;
    let sq = sum_sq(s);
    let d = sum_sq_diff(s, 1, q);
    lemma_sum_sq_diff_expand(s, 1, q);
    lemma_sum_sq_diff_expand(s, n, t);
    assert(t == n * q + r) by (nonlinear_arith)
        requires
            n > 0,
            q == t / n,
            r == t % n,
    ;
    let u = n * q;
    assert(d == sq - 2 * q * t + n * q * q);
    assert(n * d == n * sq - 2 * (u * t) + u * u) by (nonlinear_arith)
        requires
            d == sq - 2 * q * t + n * q * q,
            u == n * q,
    ;
    assert(u * t == u * u + u * r) by (nonlinear_arith)
        requires
            t == u + r,
    ;
    assert(t * t == u * u + 2 * (u * r) + r * r) by (nonlinear_arith)
        requires
            t == u + r,
    ;
    assert(n * d - r * r == n * sq - t * t);
    assert(n * (n * sq - t * t) == n * n * sq - 2 * n * t * t + n * t * t) by (nonlinear_arith);
}

/// The population standard deviation of the values, exactly, from their
/// mean. Fails with `EmptyInput` on an empty sequence, and only there.
pub fn standard_deviation(values: &[u64]) -> (r: Result<Deviation, StatsError>)
    ensures
        values@.len() == 0 <==> r == Err::<Deviation, StatsError>(StatsError::EmptyInput),
        r is Err ==> r == Err::<Deviation, StatsError>(StatsError::EmptyInput),
        r matches Ok(d) ==> d.count == values@.len() && d.remainder == total(values@) % (
        values@.len() as int) && wide(d.sq_dev_hi, d.sq_dev_lo) == sum_sq_diff(
            values@,
            1,
            total(values@) / (values@.len() as int),
        ) && d.scaled() == scaled_sq_dev(values@),
{
    let m = match mean(values) {
        Ok(m) => m,
        Err(e) => return Err(e),
    };
    let ghost s = values@;
    let ghost n = s.len() as int;
    let count = m.count as u128;
    let center = m.total / count;
    let remainder = m.total % count;
    proof {
        lemma_total_bound(s);
        let t = total(s);
        assert(center <= u64::MAX) by (nonlinear_arith)
            requires
                n > 0,
                count == n,
                center == t / n,
                t <= n * (u64::MAX as int),
        ;
    }
    let mut hi: u128 = 0;
    let mut lo: u128 = 0;
    let mut i: usize = 0;
    while i < values.len()
        invariant
            i <= s.len(),
            s == values@,
            n == s.len(),
            count == n,
            m.total == total(s),
            center == total(s) / n,
            center <= u64::MAX,
            hi <= i,
            wide(hi, lo) == sum_sq_diff(s.take(i as int), 1, center as int),
        decreases s.len() - i,
    {
        let x = values[i];
        let diff: u128 = if x as u128 >= center {
            x as u128 - center
        } else {
            center - x as u128
        };
        proof {
            assert(diff * diff <= u128::MAX) by (nonlinear_arith)
                requires
                    diff <= u64::MAX,
            ;
            assert(diff * diff == (1 * x - center) * (1 * x - center)) by (nonlinear_arith)
                requires
                    diff == x - center || diff == center - x,
            ;
            assert(s.take(i as int + 1).drop_last() =~= s.take(i as int));
        }
        let sq = diff * diff;
        if lo <= u128::MAX - sq {
            lo = lo + sq;
        } else {
            lo = sq - (u128::MAX - lo) - 1;
            hi = hi + 1;
        }
        i = i + 1;
    }
    proof {
        assert(s.take(n) =~= s);
        lemma_floor_center(s);
    }
    Ok(Deviation { sq_dev_hi: hi, sq_dev_lo: lo, remainder, count: m.count })
}

} // verus!

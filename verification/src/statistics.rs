//! Repeated-sample statistics.
//!
//! A sample is one measured duration in whole nanoseconds. The mean and the
//! sample standard deviation (divisor `n - 1`) are computed in integers and
//! rounded down to the nanosecond, so that every step has an exact meaning.

use vstd::prelude::*;
use vstd::arithmetic::div_mod::lemma_div_multiples_vanish_quotient;

verus! {

/// The sum of the samples.
pub open spec fn total(samples: Seq<u64>) -> int
    decreases samples.len(),
{
    if samples.len() == 0 {
        0
    } else {
        total(samples.drop_last()) + samples.last()
    }
}

/// The sum of the squares of the samples.
pub open spec fn sum_squares(samples: Seq<u64>) -> int
    decreases samples.len(),
{
    if samples.len() == 0 {
        0
    } else {
        sum_squares(samples.drop_last()) + samples.last() * samples.last()
    }
}

/// The sum over the samples `x` of `(scale * x - centre)` squared. With
/// `scale` the number of samples and `centre` their sum, this is the sum of
/// the squared deviations from the mean, times the square of the number of
/// samples.
pub open spec fn squared_deviations(samples: Seq<u64>, scale: int, centre: int) -> int
    decreases samples.len(),
{
    if samples.len() == 0 {
        0
    } else {
        squared_deviations(samples.drop_last(), scale, centre) + (scale * samples.last() - centre)
            * (scale * samples.last() - centre)
    }
}

/// The arithmetic mean of the samples, rounded down.
pub open spec fn mean_floor(samples: Seq<u64>) -> int
    recommends
        samples.len() >= 1,
{
    total(samples) / (samples.len() as int)
}

/// The sample variance, rounded down: the sum of the squared deviations from
/// the mean, divided by one less than the number of samples. Numerator and
/// denominator are both taken times the square of the number of samples, so
/// that the mean need not be rounded first.
pub open spec fn variance_floor(samples: Seq<u64>) -> int
    recommends
        samples.len() >= 2,
{
    let n = samples.len() as int;
    squared_deviations(samples, n, total(samples)) / (n * n * (n - 1))
}

/// Whether `root` is the square root of `value`, rounded down.
pub open spec fn is_floor_sqrt(root: int, value: int) -> bool {
    0 <= root && root * root <= value < (root + 1) * (root + 1)
}

/// Whether the statistics of the samples can be computed in 128 bits: the
/// number of samples times the sum of their squares must fit.
pub open spec fn fits(samples: Seq<u64>) -> bool {
    samples.len() * sum_squares(samples) <= u128::MAX
}

/// Mean and spread of a run of samples.
#[derive(Clone, Copy, Debug, PartialEq, Eq)]
pub struct Statistics {
    /// How many samples there were.
    pub count: usize,
    /// Their mean in nanoseconds, rounded down.
    pub mean: u64,
    /// Their sample standard deviation in nanoseconds, rounded down. With a
    /// single sample there is none.
    pub deviation: Option<u64>,
}

impl Statistics {
    /// Whether these are the statistics of `samples`.
    pub open spec fn describes(self, samples: Seq<u64>) -> bool {
        &&& samples.len() >= 1
        &&& self.count == samples.len()
        &&& self.mean == mean_floor(samples)
        &&& samples.len() == 1 ==> self.deviation is None
        &&& samples.len() >= 2 ==> self.deviation is Some && is_floor_sqrt(
            self.deviation.unwrap() as int,
            variance_floor(samples),
        )
    }
}

/// Why no statistics could be given.
#[derive(Clone, Copy, Debug, PartialEq, Eq, Structural)]
pub enum StatisticsError {
    /// There was no sample at all.
    NoSamples,
    /// The samples are too many or too large for 128-bit arithmetic.
    Overflow,
}

/// The square root of `value`, rounded down.
pub fn integer_sqrt(value: u128) -> (root: u64)
    ensures
        is_floor_sqrt(root as int, value as int),
{
    let mut low: u128 = 0;
    let mut high: u128 = 0x1_0000_0000_0000_0000;
    assert(0x1_0000_0000_0000_0000int * 0x1_0000_0000_0000_0000int
        == 0x1_0000_0000_0000_0000_0000_0000_0000_0000int) by (nonlinear_arith);
    while high - low > 1
        invariant
            low < high <= 0x1_0000_0000_0000_0000,
            low * low <= value,
            value < high * high,
        decreases high - low,
    {
        let middle: u128 = low + (high - low) / 2;
        assert(middle * middle <= 0xFFFF_FFFF_FFFF_FFFF * 0xFFFF_FFFF_FFFF_FFFF)
            by (nonlinear_arith)
            requires
                0 <= middle <= 0xFFFF_FFFF_FFFF_FFFF,
        ;
        if middle * middle <= value {
            low = middle;
        } else {
            high = middle;
        }
    }
    low as u64
}

/// The statistics of a run of samples.
///
/// Fails with [`StatisticsError::NoSamples`] on an empty run, and with
/// [`StatisticsError::Overflow`] on a run of two or more samples that does
/// not satisfy [`fits`]. A single sample always has statistics: it is its own
/// mean, and it has no deviation.
pub fn summarize(samples: &[u64]) -> (result: Result<Statistics, StatisticsError>)
    ensures
        match result {
            Ok(statistics) => statistics.describes(samples@) && (samples@.len() >= 2 ==> fits(
                samples@,
            )),
            Err(StatisticsError::NoSamples) => samples@.len() == 0,
            Err(StatisticsError::Overflow) => samples@.len() >= 2 && !fits(samples@),
        },
{
    let count: usize = samples.len();
    if count == 0 {
        return Err(StatisticsError::NoSamples);
    }
    if count == 1 {
        let only: u64 = samples[0];
        proof {
            assert(samples@.drop_last() =~= Seq::<u64>::empty());
            assert(total(samples@.drop_last()) == 0);
            assert(total(samples@) == only);
        }
        return Ok(Statistics { count, mean: only, deviation: None });
    }
    let mut sum: u128 = 0;
    let mut squares: u128 = 0;
    let mut i: usize = 0;
    while i < count
        invariant
            count == samples@.len(),
            i <= count,
            sum == total(samples@.take(i as int)),
            sum <= i * 0xFFFF_FFFF_FFFF_FFFF,
            squares == sum_squares(samples@.take(i as int)),
        decreases count - i,
    {
        let sample: u64 = samples[i];
        proof {
            assert(samples@.take(i + 1).drop_last() =~= samples@.take(i as int));
            assert(samples@.take(i + 1).last() == sample);
            assert((i + 1) * 0xFFFF_FFFF_FFFF_FFFF <= 0xFFFF_FFFF_FFFF_FFFF
                * 0xFFFF_FFFF_FFFF_FFFF) by (nonlinear_arith)
                requires
                    0 <= i + 1 <= 0xFFFF_FFFF_FFFF_FFFF,
            ;
            assert((i + 1) * 0xFFFF_FFFF_FFFF_FFFF == i * 0xFFFF_FFFF_FFFF_FFFF
                + 0xFFFF_FFFF_FFFF_FFFF) by (nonlinear_arith);
            assert(sample * sample <= 0xFFFF_FFFF_FFFF_FFFF * 0xFFFF_FFFF_FFFF_FFFF)
                by (nonlinear_arith)
                requires
                    0 <= sample <= 0xFFFF_FFFF_FFFF_FFFF,
            ;
        }
        sum = sum + sample as u128;
        let square: u128 = (sample as u128) * (sample as u128);
        match squares.checked_add(square) {
            Some(next) => {
                squares = next;
            },
            None => {
                proof {
                    lemma_sum_squares_of_prefix(samples@, i + 1);
                    lemma_scaled_at_least(count as int, sum_squares(samples@));
                }
                return Err(StatisticsError::Overflow);
            },
        }
        i = i + 1;
    }
    proof {
        assert(samples@.take(count as int) =~= samples@);
        lemma_spread(samples@);
    }
    let scaled: u128 = match (count as u128).checked_mul(squares) {
        Some(product) => product,
        None => {
            return Err(StatisticsError::Overflow);
        },
    };
    let ghost n = count as int;
    let ghost spread_int = n * sum_squares(samples@) - total(samples@) * total(samples@);
    let spread: u128 = scaled - sum * sum;
    assert(n * (n - 1) <= 0xFFFF_FFFF_FFFF_FFFF * 0xFFFF_FFFF_FFFF_FFFF && n * (n - 1) >= 2)
        by (nonlinear_arith)
        requires
            2 <= n <= 0xFFFF_FFFF_FFFF_FFFF,
    ;
    let divisor: u128 = (count as u128) * ((count - 1) as u128);
    let variance: u128 = spread / divisor;
    let deviation: u64 = integer_sqrt(variance);
    proof {
        lemma_div_multiples_vanish_quotient(n, spread_int, n * (n - 1));
        assert(n * n * (n - 1) == n * (n * (n - 1))) by (nonlinear_arith);
        assert(variance == variance_floor(samples@));
        assert(sum / (count as u128) <= 0xFFFF_FFFF_FFFF_FFFF) by (nonlinear_arith)
            requires
                0 <= sum <= count * 0xFFFF_FFFF_FFFF_FFFF,
                count > 0,
        ;
    }
    let mean: u64 = (sum / (count as u128)) as u64;
    Ok(Statistics { count, mean, deviation: Some(deviation) })
}

/// The sum of the squares of a prefix is no more than that of the whole.
proof fn lemma_sum_squares_of_prefix(samples: Seq<u64>, length: int)
    requires
        0 <= length <= samples.len(),
    ensures
        0 <= sum_squares(samples.take(length)) <= sum_squares(samples),
    decreases samples.len(),
{
    if samples.len() == 0 {
        assert(samples.take(length) =~= samples);
    } else if length == samples.len() {
        assert(samples.take(length) =~= samples);
        lemma_sum_squares_of_prefix(samples.drop_last(), length - 1);
        assert(samples.last() * samples.last() >= 0) by (nonlinear_arith);
    } else {
        assert(samples.drop_last().take(length) =~= samples.take(length));
        lemma_sum_squares_of_prefix(samples.drop_last(), length);
        assert(samples.last() * samples.last() >= 0) by (nonlinear_arith);
    }
}

/// A positive multiple of a value is at least the value, if that is not
/// negative.
proof fn lemma_scaled_at_least(scale: int, value: int)
    requires
        scale >= 1,
        value >= 0,
    ensures
        scale * value >= value,
{
    assert(scale * value >= value) by (nonlinear_arith)
        requires
            scale >= 1,
            value >= 0,
    ;
}

/// The squared deviations written out: the square of each term expanded and
/// the three parts summed separately.
proof fn lemma_squared_deviations_expanded(samples: Seq<u64>, scale: int, centre: int)
    ensures
        squared_deviations(samples, scale, centre) == scale * scale * sum_squares(samples) - 2
            * scale * centre * total(samples) + samples.len() * centre * centre,
        squared_deviations(samples, scale, centre) >= 0,
    decreases samples.len(),
{
    if samples.len() > 0 {
        let rest = samples.drop_last();
        let x = samples.last() as int;
        lemma_squared_deviations_expanded(rest, scale, centre);
        let q = sum_squares(rest);
        let t = total(rest);
        let m = rest.len() as int;
        assert((scale * x - centre) * (scale * x - centre) >= 0) by (nonlinear_arith);
        assert(scale * scale * q - 2 * scale * centre * t + m * centre * centre + (scale * x
            - centre) * (scale * x - centre) == scale * scale * (q + x * x) - 2 * scale * centre
            * (t + x) + (m + 1) * centre * centre) by (nonlinear_arith);
    } else {
        assert(scale * scale * 0 - 2 * scale * centre * 0 + 0 * centre * centre == 0)
            by (nonlinear_arith);
    }
}

/// The single-pass form of the variance's numerator: the squared deviations
/// from the mean, scaled by the square of the number of samples, are that
/// number times the difference between the number times the sum of squares
/// and the square of the sum. That difference is therefore never negative.
pub proof fn lemma_spread(samples: Seq<u64>)
    ensures
        ({
            let n = samples.len() as int;
            let spread = n * sum_squares(samples) - total(samples) * total(samples);
            &&& squared_deviations(samples, n, total(samples)) == n * spread
            &&& n >= 1 ==> spread >= 0
            &&& total(samples) >= 0
        }),
{
    let n = samples.len() as int;
    let q = sum_squares(samples);
    let t = total(samples);
    lemma_squared_deviations_expanded(samples, n, t);
    assert(n * n * q - 2 * n * t * t + n * t * t == n * (n * q - t * t)) by (nonlinear_arith);
    if n >= 1 {
        assert(n * q - t * t >= 0) by (nonlinear_arith)
            requires
                n >= 1,
                n * (n * q - t * t) >= 0,
        ;
    }
    lemma_total_bounds(samples);
}

/// The sum of the samples is not negative.
proof fn lemma_total_bounds(samples: Seq<u64>)
    ensures
        total(samples) >= 0,
    decreases samples.len(),
{
    if samples.len() > 0 {
        lemma_total_bounds(samples.drop_last());
    }
}

/// A value has one rounded-down square root only.
pub proof fn lemma_floor_sqrt_unique(first: int, second: int, value: int)
    requires
        is_floor_sqrt(first, value),
        is_floor_sqrt(second, value),
    ensures
        first == second,
{
    if first < second {
        assert((first + 1) * (first + 1) <= second * second) by (nonlinear_arith)
            requires
                0 <= first + 1 <= second,
        ;
    } else if second < first {
        assert((second + 1) * (second + 1) <= first * first) by (nonlinear_arith)
            requires
                0 <= second + 1 <= first,
        ;
    }
}

} // verus!

//! Running an operation under a configuration.
use crate::config::BencherConfig;
use crate::stats::{
    mean, scaled_sq_dev, standard_deviation, total, Deviation, Mean, StatsError,
};
use std::time::Instant;
use vstd::prelude::*;

verus! {

/// The largest duration a sample can record, in nanoseconds (over 584 years).
pub const MAX_SAMPLE_NANOS: u64 = 0xffff_ffff_ffff_ffff;

/// Whole nanoseconds as a sample, saturating at `MAX_SAMPLE_NANOS`.
pub fn saturate_nanos(nanos: u128) -> (r: u64)
    ensures
        r == if nanos <= MAX_SAMPLE_NANOS {
            nanos
        } else {
            MAX_SAMPLE_NANOS as u128
        },
{
    if nanos <= MAX_SAMPLE_NANOS as u128 {
        nanos as u64
    } else {
        MAX_SAMPLE_NANOS
    }
}

/// The statistics of one measurement, exact and in nanoseconds.
///
/// Per single call of the operation, the mean duration is
/// `mean.total / (mean.count * batch_size)` and the standard deviation is
/// the deviation of the batches divided by `batch_size`: each batch's
/// duration is divided by the batch size before the reduction.
#[derive(Debug, Clone, Copy, PartialEq, Eq, Structural)]
pub struct Measurement {
    pub mean: Mean,
    pub deviation: Deviation,
    pub batch_size: usize,
}

/// Reduces batch durations, in nanoseconds, taken with `batch_size` calls
/// per batch. Fails with `EmptyInput` where there are no durations, and
/// only there.
pub fn summarize(durations: &[u64], batch_size: usize) -> (r: Result<Measurement, StatsError>)
    requires
        batch_size > 0,
    ensures
        durations@.len() == 0 <==> r == Err::<Measurement, StatsError>(StatsError::EmptyInput),
        r is Err ==> r == Err::<Measurement, StatsError>(StatsError::EmptyInput),
        r matches Ok(m) ==> m.mean.total == total(durations@) && m.mean.count
            == durations@.len() && m.deviation.scaled() == scaled_sq_dev(durations@)
            && m.deviation.count == durations@.len() && m.batch_size == batch_size,
{
    let mean = match mean(durations) {
        Ok(m) => m,
        Err(e) => return Err(e),
    };
    let deviation = match standard_deviation(durations) {
        Ok(d) => d,
        Err(e) => return Err(e),
    };
    Ok(Measurement { mean, deviation, batch_size })
}

/// Measures operations under a fixed configuration; holds no other state
/// and can be reused for any number of measurements.
#[derive(Debug, Clone, Copy)]
pub struct Bencher {
    config: BencherConfig,
}

impl Bencher {
    pub closed spec fn spec_config(self) -> BencherConfig {
        self.config
    }

    pub fn new(config: BencherConfig) -> (r: Bencher)
        ensures
            r.spec_config() == config,
    {
        Bencher { config }
    }

    /// The configuration this bencher measures with.
    pub fn config(&self) -> (r: BencherConfig)
        ensures
            r == self.spec_config(),
    {
        self.config
    }

    /// Runs the operation `warm_ups` times untimed, then times `samples`
    /// batches of `batch_size` back-to-back calls, so it makes
    /// `warm_ups + batch_size * samples` calls in all. That count holds by
    /// the shape of the loops below; no contract states it, since a contract
    /// cannot observe how often a closure runs. Every result passes through
    /// `black_box`, so no call can be optimised away.
    ///
    /// Returns the elapsed time of each batch in nanoseconds, in the order
    /// the batches ran: exactly one entry per sample.
    pub fn sample<T, F: FnMut() -> T>(&self, mut f: F) -> (r: Vec<u64>)
        requires
            f.requires(()),
        ensures
            r.len() == self.spec_config().spec_samples(),
            r.len() > 0,
    {
        let warm_ups = self.config.warm_ups();
        let batch_size = self.config.batch_size();
        let samples = self.config.samples();

        let mut w: usize = 0;
        while w < warm_ups
            invariant
                w <= warm_ups,
                f.requires(()),
            decreases warm_ups - w,
        {
            core::hint::black_box(f());
            w = w + 1;
        }

        let mut durations: Vec<u64> = Vec::with_capacity(samples);
        let mut s: usize = 0;
        while s < samples
            invariant
                s <= samples,
                durations.len() == s,
                f.requires(()),
            decreases samples - s,
        {
            let start = Instant::now();
            let mut b: usize = 0;
            while b < batch_size
                invariant
                    b <= batch_size,
                    f.requires(()),
                decreases batch_size - b,
            {
                core::hint::black_box(f());
                b = b + 1;
            }
            let elapsed = start.elapsed();
            durations.push(saturate_nanos(elapsed.as_nanos()));
            s = s + 1;
        }
        durations
    }

    /// Samples the operation as `sample` does and reduces the batch
    /// durations with `summarize`: the result holds the exact statistics of
    /// one sequence of batch durations, one per sample.
    pub fn measure<T, F: FnMut() -> T>(&self, f: F) -> (m: Measurement)
        requires
            f.requires(()),
        ensures
            m.mean.count == self.spec_config().spec_samples(),
            m.deviation.count == self.spec_config().spec_samples(),
            m.batch_size == self.spec_config().spec_batch_size(),
            exists|d: Seq<u64>|
                d.len() == self.spec_config().spec_samples() && m.mean.total == total(d)
                    && #[trigger] scaled_sq_dev(d) == m.deviation.scaled(),
    {
        let durations = self.sample(f);
        match summarize(durations.as_slice(), self.config.batch_size()) {
            Ok(m) => {
                assert(scaled_sq_dev(durations@) == m.deviation.scaled());
                m
            },
            Err(_) => {
                proof {
                    assert(false);
                }
                Measurement {
                    mean: Mean { total: 0, count: 0 },
                    deviation: Deviation { sq_dev_hi: 0, sq_dev_lo: 0, remainder: 0, count: 0 },
                    batch_size: 0,
                }
            },
        }
    }
}

} // verus!

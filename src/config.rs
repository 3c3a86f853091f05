//! The configuration of a benchmark run.
use vstd::prelude::*;

verus! {

/// How an operation is measured: `warm_ups` untimed calls, then `samples`
/// timed batches of `batch_size` calls each.
///
/// Batch size and sample count are positive for every value of this type.
#[derive(Debug, Clone, Copy)]
pub struct BencherConfig {
    warm_ups: usize,
    batch_size: usize,
    samples: usize,
}

impl BencherConfig {
    #[verifier::type_invariant]
    spec fn positive(self) -> bool {
        self.batch_size > 0 && self.samples > 0
    }

    pub closed spec fn spec_warm_ups(self) -> nat {
        self.warm_ups as nat
    }

    pub closed spec fn spec_batch_size(self) -> nat {
        self.batch_size as nat
    }

    pub closed spec fn spec_samples(self) -> nat {
        self.samples as nat
    }

    /// The configuration with the given counts, or `None` where the batch
    /// size or the sample count is zero.
    pub fn new(warm_ups: usize, batch_size: usize, samples: usize) -> (r: Option<BencherConfig>)
        ensures
            r is Some <==> (batch_size > 0 && samples > 0),
            r matches Some(c) ==> c.spec_warm_ups() == warm_ups && c.spec_batch_size()
                == batch_size && c.spec_samples() == samples,
    {
        if batch_size == 0 || samples == 0 {
            None
        } else {
            Some(BencherConfig { warm_ups, batch_size, samples })
        }
    }

    /// Untimed calls made before sampling.
    pub fn warm_ups(&self) -> (r: usize)
        ensures
            r == self.spec_warm_ups(),
    {
        self.warm_ups
    }

    /// Calls per timed batch; always positive.
    pub fn batch_size(&self) -> (r: usize)
        ensures
            r == self.spec_batch_size(),
            r > 0,
    {
        proof {
            use_type_invariant(self);
        }
        self.batch_size
    }

    /// Timed batches per measurement; always positive.
    pub fn samples(&self) -> (r: usize)
        ensures
            r == self.spec_samples(),
            r > 0,
    {
        proof {
            use_type_invariant(self);
        }
        self.samples
    }
}

} // verus!

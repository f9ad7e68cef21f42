use rand::rngs::StdRng;
use rand::Rng;
use vstd::prelude::*;

verus! {

#[verifier::external_type_specification]
#[verifier::external_body]
pub struct ExStdRng(StdRng);

/// Relies on rand::Rng::gen_range on the range `0..n`: it returns a value
/// inside that range (drawn uniformly), and panics only on an empty range.
#[verifier::external_body]
fn uniform_index(rng: &mut StdRng, n: usize) -> (r: usize)
    requires
        n > 0,
    ensures
        r < n,
{
    rng.gen_range(0..n)
}

/// What a worker's sampler stands for: the size of the pool it resamples
/// from, and how many draws it still has to hand out.
pub struct SamplerView {
    pub pool_len: nat,
    pub remaining: nat,
}

/// The bootstrap side of one simulation worker: it hands out, one trial at a
/// time, an index drawn with replacement from the sample pool, until the
/// worker's share of trials is used up.
pub struct TrialSampler {
    pool_len: usize,
    remaining: u32,
}

impl View for TrialSampler {
    type V = SamplerView;

    closed spec fn view(&self) -> SamplerView {
        SamplerView { pool_len: self.pool_len as nat, remaining: self.remaining as nat }
    }
}

impl TrialSampler {
    #[verifier::type_invariant]
    closed spec fn well_formed(self) -> bool {
        self.pool_len > 0
    }

    /// A sampler for `trials` draws from a pool of `pool_len` values.
    pub(crate) fn for_worker(pool_len: usize, trials: u32) -> (r: TrialSampler)
        requires
            pool_len > 0,
        ensures
            r@ == (SamplerView { pool_len: pool_len as nat, remaining: trials as nat }),
    {
        TrialSampler { pool_len, remaining: trials }
    }

    /// Size of the pool the indices are drawn from.
    pub fn pool_len(&self) -> (r: usize)
        ensures
            r == self@.pool_len,
            r > 0,
    {
        proof {
            use_type_invariant(self);
        }
        self.pool_len
    }

    /// Draws this sampler has yet to hand out.
    pub fn remaining(&self) -> (r: u32)
        ensures
            r == self@.remaining,
    {
        self.remaining
    }

    /// The pool index for the next trial, drawn from `rng`, or `None` once
    /// the worker's share of trials has been handed out.
    pub fn next_index(&mut self, rng: &mut StdRng) -> (r: Option<usize>)
        ensures
            final(self)@.pool_len == old(self)@.pool_len,
            old(self)@.remaining == 0 ==> r is None && final(self)@ == old(self)@,
            old(self)@.remaining > 0 ==> (r matches Some(i) && i < old(self)@.pool_len
                && final(self)@.remaining == old(self)@.remaining - 1),
    {
        proof {
            use_type_invariant(&*self);
        }
        if self.remaining == 0 {
            return None;
        }
        let i = uniform_index(rng, self.pool_len);
        self.remaining = self.remaining - 1;
        Some(i)
    }
}

/// Draws still to come over a sequence of worker samplers.
pub open spec fn total_remaining(samplers: Seq<SamplerView>) -> nat
    decreases samplers.len(),
{
    if samplers.len() == 0 {
        0
    } else {
        total_remaining(samplers.drop_last()) + samplers.last().remaining
    }
}

} // verus!

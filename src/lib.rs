use vstd::prelude::*;
use vstd::arithmetic::power2::{pow2, lemma_pow2_pos, lemma_pow2_unfold, lemma2_to64};
use crate::allocator::UidParts;
use crate::error::GeneratorError;

pub mod error;
pub mod allocator;
pub mod buffer;
pub mod default_generator;
pub mod cached_generator;

verus! {

/// A source of packed identifiers.
pub trait UidGenerator {
    /// The generator's well-formedness, kept by every call.
    spec fn inv(&self) -> bool;

    fn get_uid(&mut self) -> (r: Result<i64, GeneratorError>)
        requires
            old(self).inv(),
        ensures
            final(self).inv(),
    ;

    fn parse_uid(&self, uid: i64) -> (r: UidParts)
        requires
            self.inv(),
    ;
}

/// Hands out the worker id of this process; every process here is worker 1.
#[derive(Debug, Default, Clone, Copy)]
pub struct DisposableWorkerIdAssigner {}

impl DisposableWorkerIdAssigner {
    pub fn new() -> (r: Self) {
        DisposableWorkerIdAssigner {  }
    }

    pub fn assign_worker_id(&self) -> (r: i64)
        ensures
            r == 1,
    {
        1
    }
}

/// Number of one bits in the binary expansion of `n`.
pub open spec fn ones(n: nat) -> nat
    decreases n,
{
    if n == 0 {
        0
    } else {
        n % 2 + ones(n / 2)
    }
}

/// Whether `n` is `2^k` for some `k`.
pub open spec fn is_power_of_two(n: nat) -> bool {
    exists|k: nat| pow2(k) == n
}

proof fn lemma_ones_le(n: nat)
    ensures
        ones(n) <= n,
    decreases n,
{
    if n > 0 {
        lemma_ones_le(n / 2);
    }
}

proof fn lemma_ones_zero(n: nat)
    requires
        ones(n) == 0,
    ensures
        n == 0,
    decreases n,
{
    if n > 0 {
        lemma_ones_zero(n / 2);
    }
}

proof fn lemma_ones_of_pow2(k: nat)
    ensures
        ones(pow2(k)) == 1,
    decreases k,
{
    lemma_pow2_pos(k);
    if k == 0 {
        lemma2_to64();
        assert(ones(1) == 1 + ones(0));
    } else {
        lemma_pow2_unfold(k);
        lemma_pow2_pos((k - 1) as nat);
        lemma_ones_of_pow2((k - 1) as nat);
        assert(pow2(k) / 2 == pow2((k - 1) as nat));
    }
}

proof fn lemma_single_one_is_pow2(n: nat)
    requires
        ones(n) == 1,
    ensures
        is_power_of_two(n),
    decreases n,
{
    if n % 2 == 1 {
        lemma_ones_zero(n / 2);
        lemma2_to64();
        assert(pow2(0) == n);
    } else {
        lemma_single_one_is_pow2(n / 2);
        let k = choose|k: nat| pow2(k) == n / 2;
        lemma_pow2_unfold(k + 1);
        assert(pow2(k + 1) == n);
    }
}

/// A number is a power of two exactly when it has a single one bit.
pub proof fn lemma_power_of_two_iff_one_bit(n: nat)
    ensures
        is_power_of_two(n) <==> ones(n) == 1,
{
    if ones(n) == 1 {
        lemma_single_one_is_pow2(n);
    }
    if is_power_of_two(n) {
        let k = choose|k: nat| pow2(k) == n;
        lemma_ones_of_pow2(k);
    }
}

/// Counts the one bits of `i`.
pub fn bit_count(i: usize) -> (r: usize)
    ensures
        r == ones(i as nat),
{
    let mut n: usize = i;
    let mut count: usize = 0;
    proof {
        lemma_ones_le(i as nat);
    }
    while n != 0
        invariant
            count + ones(n as nat) == ones(i as nat),
            ones(i as nat) <= i,
        decreases n,
    {
        assert(n & 1 == n % 2) by (bit_vector);
        assert(n >> 1 == n / 2) by (bit_vector);
        count = count + (n & 1);
        n = n >> 1;
    }
    count
}

} // verus!

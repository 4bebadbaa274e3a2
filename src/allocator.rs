use vstd::prelude::*;
use vstd::arithmetic::power2::{pow2, lemma_pow2_pos, lemma_pow2_adds, lemma_pow2_strictly_increases, lemma2_to64_rest};
use vstd::arithmetic::div_mod::{lemma_fundamental_div_mod_converse, lemma_small_mod};
use vstd::bits::{
    low_bits_mask, lemma_u64_pow2_no_overflow, lemma_u64_shl_is_mul, lemma_u64_shr_is_div,
    lemma_u64_low_bits_mask_is_mod,
};
use crate::error::ConfigError;

verus! {

/// Width of a packed identifier.
pub const TOTAL_BITS: i32 = 64;

/// The top bit is never used, so identifiers stay non-negative.
pub const SIGN_BITS: i32 = 1;

/// The value of `delta`, `worker` and `sequence` laid out as
/// `[delta | worker | sequence]`, with `worker_bits` and `sequence_bits` wide
/// low fields.
pub open spec fn pack(delta: int, worker: int, sequence: int, worker_bits: nat, sequence_bits: nat) -> int {
    delta * pow2(worker_bits + sequence_bits) + worker * pow2(sequence_bits) + sequence
}

/// Whether three widths, with the sign bit, fill exactly 64 bits.
pub open spec fn valid_bits(timestamp_bits: int, worker_bits: int, sequence_bits: int) -> bool {
    &&& 0 <= timestamp_bits
    &&& 0 <= worker_bits
    &&& 0 <= sequence_bits
    &&& SIGN_BITS + timestamp_bits + worker_bits + sequence_bits == TOTAL_BITS
}

/// The three components of a packed identifier.
#[derive(Debug, Clone, Copy, PartialEq, Eq, Structural)]
pub struct UidParts {
    pub delta_seconds: i64,
    pub worker_id: i64,
    pub sequence: i64,
}

/// Bit layout `[sign | delta seconds | worker id | sequence]` of a 64-bit identifier.
#[derive(Debug, Clone, Copy)]
pub struct BitsAllocator {
    timestamp_bits: i32,
    worker_id_bits: i32,
    sequence_bits: i32,
    max_delta_seconds: i64,
    max_worker_id: i64,
    max_sequence: i64,
    timestamp_shift: i32,
    worker_id_shift: i32,
}

/// `1 << k` is `2^k`, and `2^k` fits below the sign bit of an `i64` plus one.
proof fn lemma_one_shl(k: u64)
    requires
        k < 64,
    ensures
        (1u64 << k) == pow2(k as nat),
        1 <= pow2(k as nat) <= 0x8000_0000_0000_0000,
{
    lemma_pow2_pos(k as nat);
    lemma_u64_pow2_no_overflow(k as nat);
    lemma_u64_shl_is_mul(1, k);
    lemma2_to64_rest();
    if k < 63 {
        lemma_pow2_strictly_increases(k as nat, 63);
    }
}

/// A field `hi` placed above a `k`-bit field `lo` stays below `2^(n + k)`.
proof fn lemma_place(hi: int, lo: int, k: nat, n: nat)
    requires
        0 <= hi < pow2(n),
        0 <= lo < pow2(k),
    ensures
        0 <= hi * pow2(k) + lo < pow2(n + k),
{
    lemma_pow2_pos(k);
    lemma_pow2_adds(n, k);
    let p = pow2(k) as int;
    let q = pow2(n) as int;
    assert(0 <= hi * p + lo < q * p) by (nonlinear_arith)
        requires
            0 <= hi < q,
            0 <= lo < p,
            p > 0,
    ;
}

/// No carries: `(y << k) | x` is `(y << k) + x` when `x` fits in `k` bits.
proof fn lemma_or_is_add(x: u64, y: u64, k: u64)
    requires
        k < 64,
        x < (1u64 << k),
    ensures
        (y << k) | x == (y << k) + x,
{
    assert((y << k) | x == (y << k) + x) by (bit_vector)
        requires
            k < 64,
            x < (1u64 << k),
    ;
}

impl BitsAllocator {
    pub closed spec fn spec_timestamp_bits(&self) -> i32 {
        self.timestamp_bits
    }

    pub closed spec fn spec_worker_id_bits(&self) -> i32 {
        self.worker_id_bits
    }

    pub closed spec fn spec_sequence_bits(&self) -> i32 {
        self.sequence_bits
    }

    pub closed spec fn spec_max_delta_seconds(&self) -> i64 {
        self.max_delta_seconds
    }

    pub closed spec fn spec_max_worker_id(&self) -> i64 {
        self.max_worker_id
    }

    pub closed spec fn spec_max_sequence(&self) -> i64 {
        self.max_sequence
    }

    /// The shifts are the widths of the fields below each one.
    pub closed spec fn shifts_match(&self) -> bool {
        &&& self.timestamp_shift == self.worker_id_bits + self.sequence_bits
        &&& self.worker_id_shift == self.sequence_bits
    }

    /// A layout whose widths fill 64 bits and whose maxima are all-ones masks of those widths.
    pub open spec fn wf(&self) -> bool {
        &&& valid_bits(
            self.timestamp_bits() as int,
            self.worker_id_bits() as int,
            self.sequence_bits() as int,
        )
        &&& self.max_delta_seconds() == pow2(self.timestamp_bits() as nat) - 1
        &&& self.max_worker_id() == pow2(self.worker_id_bits() as nat) - 1
        &&& self.max_sequence() == pow2(self.sequence_bits() as nat) - 1
        &&& 0 <= self.max_delta_seconds() && 0 <= self.max_worker_id() && 0 <= self.max_sequence()
        &&& self.shifts_match()
    }

    /// The identifier that `allocate` packs from the three components.
    pub open spec fn spec_allocate(&self, delta: int, worker: int, sequence: int) -> int {
        pack(delta, worker, sequence, self.worker_id_bits() as nat, self.sequence_bits() as nat)
    }

    /// Whether each component fits in its field.
    pub open spec fn fits(&self, delta: int, worker: int, sequence: int) -> bool {
        &&& 0 <= delta <= self.max_delta_seconds()
        &&& 0 <= worker <= self.max_worker_id()
        &&& 0 <= sequence <= self.max_sequence()
    }

    /// The delta seconds read back from the bits of `uid`.
    pub open spec fn unpack_delta(&self, uid: int) -> int {
        (uid / pow2((self.worker_id_bits() + self.sequence_bits()) as nat) as int) % pow2(
            self.timestamp_bits() as nat,
        ) as int
    }

    /// The worker id read back from the bits of `uid`.
    pub open spec fn unpack_worker(&self, uid: int) -> int {
        (uid / pow2(self.sequence_bits() as nat) as int) % pow2(self.worker_id_bits() as nat) as int
    }

    /// The sequence read back from the bits of `uid`.
    pub open spec fn unpack_sequence(&self, uid: int) -> int {
        uid % pow2(self.sequence_bits() as nat) as int
    }

    /// Builds the layout for the given widths; they must fill 64 bits with the sign bit.
    pub fn from(timestamp_bits: i32, worker_id_bits: i32, sequence_bits: i32) -> (r: Result<
        BitsAllocator,
        ConfigError,
    >)
        ensures
            match r {
                Ok(a) => {
                    &&& valid_bits(timestamp_bits as int, worker_id_bits as int, sequence_bits as int)
                    &&& a.wf()
                    &&& a.timestamp_bits() == timestamp_bits
                    &&& a.worker_id_bits() == worker_id_bits
                    &&& a.sequence_bits() == sequence_bits
                },
                Err(e) => {
                    &&& !valid_bits(timestamp_bits as int, worker_id_bits as int, sequence_bits as int)
                    &&& e == ConfigError::BitBudgetExceeded
                },
            },
    {
        if timestamp_bits < 0 || worker_id_bits < 0 || sequence_bits < 0 {
            return Err(ConfigError::BitBudgetExceeded);
        }
        let total: i64 = SIGN_BITS as i64 + timestamp_bits as i64 + worker_id_bits as i64
            + sequence_bits as i64;
        if total != TOTAL_BITS as i64 {
            return Err(ConfigError::BitBudgetExceeded);
        }
        proof {
            lemma_one_shl(timestamp_bits as u64);
            lemma_one_shl(worker_id_bits as u64);
            lemma_one_shl(sequence_bits as u64);
        }
        Ok(BitsAllocator {
            timestamp_bits,
            worker_id_bits,
            sequence_bits,
            max_delta_seconds: ((1u64 << timestamp_bits as u64) - 1) as i64,
            max_worker_id: ((1u64 << worker_id_bits as u64) - 1) as i64,
            max_sequence: ((1u64 << sequence_bits as u64) - 1) as i64,
            timestamp_shift: worker_id_bits + sequence_bits,
            worker_id_shift: sequence_bits,
        })
    }

    /// Packs `(delta_seconds, worker_id, sequence)` into one non-negative identifier.
    pub fn allocate(&self, delta_seconds: i64, worker_id: i64, sequence: i64) -> (r: i64)
        requires
            self.wf(),
            self.fits(delta_seconds as int, worker_id as int, sequence as int),
        ensures
            r == self.spec_allocate(delta_seconds as int, worker_id as int, sequence as int),
            r >= 0,
    {
        let ts = self.timestamp_shift as u64;
        let ws = self.worker_id_shift as u64;
        let d = delta_seconds as u64;
        let w = worker_id as u64;
        let s = sequence as u64;
        proof {
            let tb = self.timestamp_bits as nat;
            let wb = self.worker_id_bits as nat;
            let sb = self.sequence_bits as nat;
            lemma_one_shl(ws);
            lemma_one_shl(ts);
            lemma_place(w as int, s as int, sb, wb);
            lemma_place(d as int, w * pow2(sb) + s, wb + sb, tb);
            lemma2_to64_rest();
            lemma_u64_pow2_no_overflow(tb + wb + sb);
            lemma_pow2_pos(sb);
            lemma_pow2_pos(wb + sb);
            assert(w * pow2(sb) <= w * pow2(sb) + s);
            assert(d * pow2(wb + sb) <= d * pow2(wb + sb) + w * pow2(sb) + s);
            lemma_u64_shl_is_mul(w, ws);
            lemma_u64_shl_is_mul(d, ts);
            lemma_or_is_add(s, w, ws);
            lemma_or_is_add((w << ws) | s, d, ts);
        }
        ((d << ts) | ((w << ws) | s)) as i64
    }

    /// Reads the three components back from the bits of `uid`.
    pub fn parse_uid(&self, uid: i64) -> (r: UidParts)
        requires
            self.wf(),
        ensures
            r.delta_seconds == self.unpack_delta(uid as u64 as int),
            r.worker_id == self.unpack_worker(uid as u64 as int),
            r.sequence == self.unpack_sequence(uid as u64 as int),
    {
        let u = #[verifier::truncate] (uid as u64);
        let ts = self.timestamp_shift as u64;
        let ws = self.worker_id_shift as u64;
        let hi = u >> ts;
        let mid = u >> ws;
        let delta = hi & (self.max_delta_seconds as u64);
        let worker = mid & (self.max_worker_id as u64);
        let sequence = u & (self.max_sequence as u64);
        proof {
            let tb = self.timestamp_bits as nat;
            let wb = self.worker_id_bits as nat;
            let sb = self.sequence_bits as nat;
            lemma_one_shl(tb as u64);
            lemma_one_shl(wb as u64);
            lemma_one_shl(sb as u64);
            lemma_pow2_pos(tb);
            lemma_pow2_pos(wb);
            lemma_pow2_pos(sb);
            lemma_u64_shr_is_div(u, ts);
            lemma_u64_shr_is_div(u, ws);
            assert(self.max_delta_seconds as u64 == low_bits_mask(tb) as u64);
            assert(self.max_worker_id as u64 == low_bits_mask(wb) as u64);
            assert(self.max_sequence as u64 == low_bits_mask(sb) as u64);
            lemma_u64_low_bits_mask_is_mod(hi, tb);
            lemma_u64_low_bits_mask_is_mod(mid, wb);
            lemma_u64_low_bits_mask_is_mod(u, sb);
        }
        UidParts { delta_seconds: delta as i64, worker_id: worker as i64, sequence: sequence as i64 }
    }

    /// An allocated identifier is non-negative and fits in an `i64`.
    pub proof fn lemma_allocate_in_range(&self, delta: int, worker: int, sequence: int)
        requires
            self.wf(),
            self.fits(delta, worker, sequence),
        ensures
            0 <= self.spec_allocate(delta, worker, sequence) <= i64::MAX,
    {
        let tb = self.timestamp_bits() as nat;
        let wb = self.worker_id_bits() as nat;
        let sb = self.sequence_bits() as nat;
        lemma_place(worker, sequence, sb, wb);
        lemma_place(delta, worker * pow2(sb) + sequence, wb + sb, tb);
        lemma2_to64_rest();
    }

    /// Identifiers of one worker are ordered by second, then by sequence.
    pub proof fn lemma_allocate_ordered(&self, worker: int, d1: int, s1: int, d2: int, s2: int)
        requires
            self.wf(),
            self.fits(d1, worker, s1),
            self.fits(d2, worker, s2),
            d1 < d2 || (d1 == d2 && s1 < s2),
        ensures
            self.spec_allocate(d1, worker, s1) < self.spec_allocate(d2, worker, s2),
    {
        let wb = self.worker_id_bits() as nat;
        let sb = self.sequence_bits() as nat;
        lemma_pow2_pos(wb);
        lemma_pow2_pos(sb);
        lemma_pow2_pos(wb + sb);
        lemma_place(worker, s1, sb, wb);
        lemma_place(worker, s2, sb, wb);
        let p = pow2(wb + sb) as int;
        let q = pow2(sb) as int;
        if d1 < d2 {
            assert(d1 * p + (worker * q + s1) < d2 * p + (worker * q + s2)) by (nonlinear_arith)
                requires
                    d1 < d2,
                    p > 0,
                    0 <= worker * q + s1 < p,
                    0 <= worker * q + s2,
            ;
        }
    }

    /// Packing is invertible: the fields read back from an allocated identifier
    /// are the components it was allocated from.
    pub proof fn lemma_round_trip(&self, delta: int, worker: int, sequence: int)
        requires
            self.wf(),
            self.fits(delta, worker, sequence),
        ensures
            self.unpack_delta(self.spec_allocate(delta, worker, sequence)) == delta,
            self.unpack_worker(self.spec_allocate(delta, worker, sequence)) == worker,
            self.unpack_sequence(self.spec_allocate(delta, worker, sequence)) == sequence,
    {
        let tb = self.timestamp_bits() as nat;
        let wb = self.worker_id_bits() as nat;
        let sb = self.sequence_bits() as nat;
        let id = self.spec_allocate(delta, worker, sequence);
        lemma_pow2_pos(tb);
        lemma_pow2_pos(wb);
        lemma_pow2_pos(sb);
        lemma_pow2_pos(wb + sb);
        lemma_pow2_adds(wb, sb);
        let pw = pow2(wb) as int;
        let ps = pow2(sb) as int;
        let pws = pow2(wb + sb) as int;
        assert(id == (delta * pw + worker) * ps + sequence) by (nonlinear_arith)
            requires
                id == delta * pws + worker * ps + sequence,
                pws == pw * ps,
        ;
        lemma_fundamental_div_mod_converse(id, ps, delta * pw + worker, sequence);
        lemma_fundamental_div_mod_converse(delta * pw + worker, pw, delta, worker);
        lemma_place(worker, sequence, sb, wb);
        lemma_fundamental_div_mod_converse(id, pws, delta, worker * ps + sequence);
        lemma_small_mod(delta as nat, pow2(tb));
    }

    #[verifier::when_used_as_spec(spec_timestamp_bits)]
    pub fn timestamp_bits(&self) -> (r: i32)
        ensures
            r == self.spec_timestamp_bits(),
    {
        self.timestamp_bits
    }

    #[verifier::when_used_as_spec(spec_worker_id_bits)]
    pub fn worker_id_bits(&self) -> (r: i32)
        ensures
            r == self.spec_worker_id_bits(),
    {
        self.worker_id_bits
    }

    #[verifier::when_used_as_spec(spec_sequence_bits)]
    pub fn sequence_bits(&self) -> (r: i32)
        ensures
            r == self.spec_sequence_bits(),
    {
        self.sequence_bits
    }

    #[verifier::when_used_as_spec(spec_max_delta_seconds)]
    pub fn max_delta_seconds(&self) -> (r: i64)
        ensures
            r == self.spec_max_delta_seconds(),
    {
        self.max_delta_seconds
    }

    #[verifier::when_used_as_spec(spec_max_worker_id)]
    pub fn max_worker_id(&self) -> (r: i64)
        ensures
            r == self.spec_max_worker_id(),
    {
        self.max_worker_id
    }

    #[verifier::when_used_as_spec(spec_max_sequence)]
    pub fn max_sequence(&self) -> (r: i64)
        ensures
            r == self.spec_max_sequence(),
    {
        self.max_sequence
    }
}

} // verus!

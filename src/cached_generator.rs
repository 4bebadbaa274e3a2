use vstd::prelude::*;
use vstd::arithmetic::div_mod::{
    lemma_div_is_ordered, lemma_div_pos_is_pos, lemma_fundamental_div_mod, lemma_fundamental_div_mod_converse,
    lemma_mod_bound,
};
use crate::allocator::{BitsAllocator, UidParts, valid_bits};
use crate::buffer::RingBuffer;
use crate::default_generator::{UidGeneratorBuild, NO_SECOND, current_unix_second};
use crate::error::{ConfigError, GeneratorError};
use crate::{is_power_of_two, DisposableWorkerIdAssigner, UidGenerator};

verus! {

/// Padding factor used when none is configured: refill below half full.
pub const DEFAULT_PADDING_FACTOR: usize = 50;

/// The buffered generator: whole seconds of identifiers are produced ahead of
/// time into a ring buffer, and callers take them from it without reading the clock.
pub struct CacheUidGenerator<const T: usize> {
    padding_factor: usize,
    epoch_seconds: i64,
    bits_allocator: BitsAllocator,
    worker_id: i64,
    last_second: i64,
    ring_buffer: RingBuffer<T>,
}

impl<const T: usize> CacheUidGenerator<T> {
    pub closed spec fn spec_epoch_seconds(&self) -> i64 {
        self.epoch_seconds
    }

    pub closed spec fn spec_allocator(&self) -> BitsAllocator {
        self.bits_allocator
    }

    pub closed spec fn spec_worker_id(&self) -> i64 {
        self.worker_id
    }

    /// The last second since the epoch whose identifiers were produced, or `NO_SECOND`.
    pub closed spec fn spec_last_second(&self) -> i64 {
        self.last_second
    }

    pub closed spec fn spec_buffer(&self) -> RingBuffer<T> {
        self.ring_buffer
    }

    pub open spec fn wf(&self) -> bool {
        &&& self.spec_allocator().wf()
        &&& 0 <= self.spec_worker_id() <= self.spec_allocator().max_worker_id()
        &&& NO_SECOND <= self.spec_last_second() <= self.spec_allocator().max_delta_seconds()
        &&& self.spec_buffer().wf()
        &&& 0 < self.spec_padding_factor() < 100
    }

    pub closed spec fn spec_padding_factor(&self) -> usize {
        self.padding_factor
    }

    /// Same layout, epoch and worker.
    pub open spec fn same_config(&self, other: &Self) -> bool {
        &&& self.spec_epoch_seconds() == other.spec_epoch_seconds()
        &&& self.spec_allocator() == other.spec_allocator()
        &&& self.spec_worker_id() == other.spec_worker_id()
    }

    /// The identifier of `delta` and `sequence` for this worker.
    pub open spec fn id_of(&self, delta: int, sequence: int) -> int {
        self.spec_allocator().spec_allocate(delta, self.spec_worker_id() as int, sequence)
    }

    /// Number of identifiers in one second.
    pub open spec fn per_second(&self) -> int {
        self.spec_allocator().max_sequence() + 1
    }

    /// The `j`-th identifier of consecutive whole seconds starting at `start`.
    pub open spec fn batch_id(&self, start: int, j: int) -> int {
        self.id_of(start + j / self.per_second(), j % self.per_second())
    }

    /// The first second a refill at clock reading `now` produces: the one after
    /// the last produced, or the current one if that is later.
    pub open spec fn refill_start(&self, now: int) -> int {
        let next = self.spec_last_second() + 1;
        let current = now - self.spec_epoch_seconds();
        if current > next {
            current
        } else {
            next
        }
    }

    /// Identifiers of consecutive seconds come out strictly increasing, so a
    /// refill never produces the same identifier twice.
    pub proof fn lemma_batch_increasing(&self, start: int, j1: int, j2: int)
        requires
            self.wf(),
            0 <= start,
            0 <= j1 < j2,
            start + j2 / self.per_second() <= self.spec_allocator().max_delta_seconds(),
        ensures
            self.batch_id(start, j1) < self.batch_id(start, j2),
    {
        let m = self.per_second();
        lemma_div_is_ordered(j1, j2, m);
        lemma_mod_bound(j1, m);
        lemma_mod_bound(j2, m);
        lemma_div_pos_is_pos(j1, m);
        if j1 / m == j2 / m {
            lemma_fundamental_div_mod(j1, m);
            lemma_fundamental_div_mod(j2, m);
        }
        self.spec_allocator().lemma_allocate_ordered(
            self.spec_worker_id() as int,
            start + j1 / m,
            j1 % m,
            start + j2 / m,
            j2 % m,
        );
    }

    /// What a refill at clock reading `now` leaves and returns: the cache keeps
    /// what it held and gains the next identifiers of whole seconds from
    /// `refill_start(now)` on, until full or out of timestamp bits.
    pub open spec fn refills_to(&self, now: int, next: &Self, r: Result<usize, GeneratorError>) -> bool {
        let held = self.spec_buffer()@;
        let after = next.spec_buffer()@;
        &&& next.same_config(self)
        &&& next.spec_last_second() >= self.spec_last_second()
        &&& next.spec_buffer().spec_padding_threshold() == self.spec_buffer().spec_padding_threshold()
        &&& held.len() <= after.len()
        &&& after.subrange(0, held.len() as int) =~= held
        &&& forall|j: int|
            0 <= j < after.len() - held.len() ==> #[trigger] after[held.len() + j] == self.batch_id(
                self.refill_start(now),
                j,
            )
        &&& r is Ok ==> !next.spec_buffer().can_put() && r->Ok_0 == after.len() - held.len()
        &&& r is Err ==> r == Err::<usize, GeneratorError>(GeneratorError::TimestampBitsExhausted)
        &&& r is Err <==> self.refill_start(now) + (after.len() - held.len()) / self.per_second()
            > self.spec_allocator().max_delta_seconds()
    }

    /// A buffered generator for the worker id that `DisposableWorkerIdAssigner`
    /// hands out, with an empty buffer of capacity `T`.
    pub fn init(build: UidGeneratorBuild, padding_factor: usize) -> (r: Result<Self, ConfigError>)
        ensures
            match r {
                Ok(g) => {
                    &&& build.accepts(1)
                    &&& is_power_of_two(T as nat)
                    &&& 0 < padding_factor < 100
                    &&& g.wf()
                    &&& g.spec_epoch_seconds() == build.spec_epoch_seconds()
                    &&& g.spec_allocator().timestamp_bits() == build.spec_time_bits()
                    &&& g.spec_allocator().worker_id_bits() == build.spec_worker_bits()
                    &&& g.spec_allocator().sequence_bits() == build.spec_seq_bits()
                    &&& g.spec_worker_id() == 1
                    &&& g.spec_last_second() == NO_SECOND
                    &&& g.spec_buffer()@ == Seq::<i64>::empty()
                },
                Err(e) => {
                    &&& !valid_bits(
                        build.spec_time_bits() as int,
                        build.spec_worker_bits() as int,
                        build.spec_seq_bits() as int,
                    ) ==> e == ConfigError::BitBudgetExceeded
                    &&& valid_bits(
                        build.spec_time_bits() as int,
                        build.spec_worker_bits() as int,
                        build.spec_seq_bits() as int,
                    ) && !build.accepts(1) ==> e == ConfigError::WorkerIdExceeded
                    &&& build.accepts(1) && !is_power_of_two(T as nat) ==> e
                        == ConfigError::InvalidCapacity
                    &&& build.accepts(1) && is_power_of_two(T as nat) ==> e
                        == ConfigError::InvalidPaddingFactor && !(0 < padding_factor < 100)
                },
            },
    {
        let (time_bits, worker_bits, seq_bits, epoch_seconds) = build.resolve();
        let bits_allocator = match BitsAllocator::from(time_bits, worker_bits, seq_bits) {
            Ok(a) => a,
            Err(e) => {
                return Err(e);
            },
        };
        let worker_id = DisposableWorkerIdAssigner::new().assign_worker_id();
        if worker_id > bits_allocator.max_worker_id() {
            return Err(ConfigError::WorkerIdExceeded);
        }
        let mut ring_buffer = match RingBuffer::<T>::from(padding_factor) {
            Ok(b) => b,
            Err(e) => {
                return Err(e);
            },
        };
        let _ = ring_buffer.init_buffer();
        Ok(CacheUidGenerator {
            padding_factor,
            epoch_seconds,
            bits_allocator,
            worker_id,
            last_second: NO_SECOND,
            ring_buffer,
        })
    }

    /// Replaces the cache with an empty one of the same capacity and padding factor;
    /// the identifiers it held are dropped and their seconds are not produced again.
    pub fn init_buffer(&mut self) -> (r: Result<(), ConfigError>)
        requires
            old(self).wf(),
        ensures
            final(self).wf(),
            final(self).same_config(&*old(self)),
            final(self).spec_last_second() == old(self).spec_last_second(),
            r is Ok,
            final(self).spec_buffer()@ == Seq::<i64>::empty(),
    {
        proof {
            self.ring_buffer.lemma_capacity_power_of_two();
        }
        match RingBuffer::<T>::from(self.padding_factor) {
            Ok(b) => {
                self.ring_buffer = b;
                Ok(())
            },
            Err(e) => Err(e),
        }
    }

    /// All identifiers of second `delta` since the epoch, in sequence order.
    fn ids_for_delta(&self, delta: i64) -> (r: Vec<i64>)
        requires
            self.wf(),
            0 <= delta <= self.spec_allocator().max_delta_seconds(),
        ensures
            r@.len() == self.per_second(),
            forall|i: int| 0 <= i < r@.len() ==> r@[i] == self.id_of(delta as int, i),
    {
        let size: i128 = self.bits_allocator.max_sequence() as i128 + 1;
        let mut uids: Vec<i64> = Vec::new();
        let first_seq_uid = self.bits_allocator.allocate(delta, self.worker_id, 0);
        let mut offset: i128 = 0;
        while offset < size
            invariant
                0 <= offset <= size,
                size == self.per_second(),
                self.wf(),
                0 <= delta <= self.spec_allocator().max_delta_seconds(),
                first_seq_uid == self.id_of(delta as int, 0),
                uids@.len() == offset,
                forall|i: int| 0 <= i < offset ==> uids@[i] == self.id_of(delta as int, i),
            decreases size - offset,
        {
            proof {
                self.bits_allocator.lemma_allocate_in_range(delta as int, self.worker_id as int, offset as int);
            }
            uids.push(first_seq_uid + offset as i64);
            offset = offset + 1;
        }
        uids
    }

    /// All identifiers of the Unix second `current_second`, in sequence order.
    pub fn next_ids_for_one_second(&self, current_second: i64) -> (r: Vec<i64>)
        requires
            self.wf(),
            0 <= current_second - self.spec_epoch_seconds() <= self.spec_allocator().max_delta_seconds(),
        ensures
            r@.len() == self.per_second(),
            forall|i: int|
                0 <= i < r@.len() ==> r@[i] == self.id_of(current_second - self.spec_epoch_seconds(), i),
    {
        self.ids_for_delta(current_second - self.epoch_seconds)
    }

    /// Fills the buffer with whole seconds of identifiers, in order, starting at
    /// `refill_start(now_second)`, until a `put` is refused. The rest of a second
    /// whose identifiers did not all fit is skipped, so none is ever produced twice.
    pub fn refill_at(&mut self, now_second: i64) -> (r: Result<usize, GeneratorError>)
        requires
            old(self).wf(),
        ensures
            final(self).wf(),
            old(self).refills_to(now_second as int, &*final(self), r),
    {
        let ghost start = self.refill_start(now_second as int);
        let ghost before = self.ring_buffer@;
        let ghost initial = *self;
        let current: i128 = now_second as i128 - self.epoch_seconds as i128;
        let next: i128 = self.last_second as i128 + 1;
        let first: i128 = if current > next { current } else { next };
        let ghost m = self.per_second();
        if first > self.bits_allocator.max_delta_seconds() as i128 {
            proof {
                lemma_fundamental_div_mod_converse(0, m, 0, 0);
                assert(self.ring_buffer@.subrange(0, before.len() as int) =~= before);
            }
            return Err(GeneratorError::TimestampBitsExhausted);
        }
        let mut second: i64 = first as i64;
        let mut count: usize = 0;
        assert(second == start);
        loop
            invariant
                initial == *old(self),
                before == old(self).spec_buffer()@,
                start == old(self).refill_start(now_second as int),
                0 <= start,
                self.wf(),
                self.same_config(&initial),
                self.spec_last_second() >= initial.spec_last_second(),
                self.ring_buffer.spec_padding_threshold() == initial.ring_buffer.spec_padding_threshold(),
                m == self.per_second(),
                m >= 1,
                start <= second <= self.spec_allocator().max_delta_seconds(),
                self.ring_buffer@.len() == before.len() + count,
                count == (second - start) * m,
                self.ring_buffer@.subrange(0, before.len() as int) == before,
                forall|j: int|
                    0 <= j < count ==> #[trigger] self.ring_buffer@[before.len() + j] == initial.batch_id(
                        start,
                        j,
                    ),
            decreases self.spec_allocator().max_delta_seconds() - second,
        {
            if !self.ring_buffer.has_room() {
                proof {
                    lemma_fundamental_div_mod_converse(count as int, m, second - start, 0);
                }
                return Ok(count);
            }
            let batch = self.ids_for_delta(second);
            self.last_second = second;
            let mut k: usize = 0;
            while k < batch.len()
                invariant
                    initial == *old(self),
                    before == old(self).spec_buffer()@,
                    start == old(self).refill_start(now_second as int),
                    0 <= start,
                    self.wf(),
                    self.same_config(&initial),
                    self.spec_last_second() == second,
                    self.spec_last_second() >= initial.spec_last_second(),
                    self.ring_buffer.spec_padding_threshold() == initial.ring_buffer.spec_padding_threshold(),
                    m == self.per_second(),
                    m >= 1,
                    start <= second <= self.spec_allocator().max_delta_seconds(),
                    batch@.len() == m,
                    forall|i: int| 0 <= i < batch@.len() ==> batch@[i] == self.id_of(second as int, i),
                    0 <= k <= batch@.len(),
                    self.ring_buffer@.len() == before.len() + count,
                    count == (second - start) * m + k,
                    self.ring_buffer@.subrange(0, before.len() as int) == before,
                    forall|j: int|
                        0 <= j < count ==> #[trigger] self.ring_buffer@[before.len() + j]
                            == initial.batch_id(start, j),
                decreases batch@.len() - k,
            {
                let ghost prior = self.ring_buffer@;
                if !self.ring_buffer.put(batch[k]) {
                    proof {
                        lemma_fundamental_div_mod_converse(count as int, m, second - start, k as int);
                    }
                    return Ok(count);
                }
                proof {
                    let j = count as int;
                    lemma_fundamental_div_mod_converse(j, m, second - start, k as int);
                    assert(self.ring_buffer@.subrange(0, before.len() as int) =~= before);
                    assert forall|i: int|
                        0 <= i < count + 1 implies #[trigger] self.ring_buffer@[before.len() + i]
                        == initial.batch_id(start, i) by {
                        if i < count {
                            assert(self.ring_buffer@[before.len() + i] == prior[before.len() + i]);
                        }
                    }
                    self.ring_buffer.lemma_view_len();
                }
                count = count + 1;
                k = k + 1;
            }
            proof {
                assert(count == (second + 1 - start) * m) by (nonlinear_arith)
                    requires
                        count == (second - start) * m + m,
                ;
                lemma_fundamental_div_mod_converse(count as int, m, second + 1 - start, 0);
            }
            if second == self.bits_allocator.max_delta_seconds() {
                return Err(GeneratorError::TimestampBitsExhausted);
            }
            second = second + 1;
        }
    }

    /// `refill_at` for the second the system clock reads now.
    pub fn refill(&mut self) -> (r: Result<usize, GeneratorError>)
        requires
            old(self).wf(),
        ensures
            final(self).wf(),
            exists|now: i64| old(self).refills_to(now as int, &*final(self), r),
    {
        let now = current_unix_second();
        self.refill_at(now)
    }

    /// Whether fewer identifiers than the padding threshold remain, so a refill is due.
    pub fn needs_padding(&self) -> (r: bool)
        requires
            self.wf(),
        ensures
            r == (self.spec_buffer()@.len() < self.spec_buffer().spec_padding_threshold()),
    {
        self.ring_buffer.needs_padding()
    }

    /// Takes the oldest cached identifier; an empty cache is `CacheExhausted`.
    /// Takes the oldest cached identifier, as `take_uid` does, and reports
    /// whether fewer than the padding threshold remain afterwards, so that the
    /// caller can start a refill without waiting for it.
    pub fn get_uid_signalled(&mut self) -> (r: (Result<i64, GeneratorError>, bool))
        requires
            old(self).wf(),
        ensures
            final(self).wf(),
            final(self).same_config(&*old(self)),
            final(self).spec_last_second() == old(self).spec_last_second(),
            old(self).spec_buffer()@.len() == 0 ==> r.0 == Err::<i64, GeneratorError>(
                GeneratorError::CacheExhausted,
            ) && final(self).spec_buffer()@ == old(self).spec_buffer()@,
            old(self).spec_buffer()@.len() > 0 ==> r.0 == Ok::<i64, GeneratorError>(
                old(self).spec_buffer()@[0],
            ) && final(self).spec_buffer()@ == old(self).spec_buffer()@.drop_first(),
            r.1 == (final(self).spec_buffer()@.len() < final(self).spec_buffer().spec_padding_threshold()),
    {
        let (taken, refill_due) = self.ring_buffer.take_signalled();
        let r = match taken {
            None => Err(GeneratorError::CacheExhausted),
            Some(uid) => Ok(uid),
        };
        (r, refill_due)
    }

    pub fn take_uid(&mut self) -> (r: Result<i64, GeneratorError>)
        requires
            old(self).wf(),
        ensures
            final(self).wf(),
            final(self).same_config(&*old(self)),
            final(self).spec_last_second() == old(self).spec_last_second(),
            old(self).spec_buffer()@.len() == 0 ==> r == Err::<i64, GeneratorError>(
                GeneratorError::CacheExhausted,
            ) && final(self).spec_buffer()@ == old(self).spec_buffer()@,
            old(self).spec_buffer()@.len() > 0 ==> r == Ok::<i64, GeneratorError>(
                old(self).spec_buffer()@[0],
            ) && final(self).spec_buffer()@ == old(self).spec_buffer()@.drop_first(),
    {
        match self.ring_buffer.take() {
            None => Err(GeneratorError::CacheExhausted),
            Some(uid) => Ok(uid),
        }
    }
}

impl<const T: usize> UidGenerator for CacheUidGenerator<T> {
    open spec fn inv(&self) -> bool {
        self.wf()
    }

    fn get_uid(&mut self) -> (r: Result<i64, GeneratorError>)
        ensures
            final(self).same_config(&*old(self)),
            final(self).spec_last_second() == old(self).spec_last_second(),
            old(self).spec_buffer()@.len() == 0 ==> r == Err::<i64, GeneratorError>(
                GeneratorError::CacheExhausted,
            ) && final(self).spec_buffer()@ == old(self).spec_buffer()@,
            old(self).spec_buffer()@.len() > 0 ==> r == Ok::<i64, GeneratorError>(
                old(self).spec_buffer()@[0],
            ) && final(self).spec_buffer()@ == old(self).spec_buffer()@.drop_first(),
    {
        self.take_uid()
    }

    fn parse_uid(&self, uid: i64) -> (r: UidParts)
        ensures
            r.delta_seconds == self.spec_allocator().unpack_delta(uid as u64 as int),
            r.worker_id == self.spec_allocator().unpack_worker(uid as u64 as int),
            r.sequence == self.spec_allocator().unpack_sequence(uid as u64 as int),
    {
        self.bits_allocator.parse_uid(uid)
    }
}

} // verus!

use vstd::prelude::*;
use vstd::arithmetic::power2::pow2;
use crate::allocator::{BitsAllocator, UidParts, valid_bits};
use crate::error::{ConfigError, GeneratorError};
use crate::{DisposableWorkerIdAssigner, UidGenerator};

verus! {

/// Timestamp width used when none is configured. The three default widths add
/// up to more than 63 bits, so a build must set at least one of them.
pub const TIME_BITS: i32 = 28;

/// Worker id width used when none is configured.
pub const WORKER_BITS: i32 = 28;

/// Sequence width used when none is configured.
pub const SEQ_BITS: i32 = 28;

/// Epoch used when none is configured: 2022-08-17 00:00:00 UTC+8, in Unix seconds.
pub const EPOCH_SECONDS: i64 = 1660665600;

/// The last second before any identifier was issued.
pub const NO_SECOND: i64 = -1;

/// Relies on chrono's `From<SystemTime> for DateTime<Utc>` and `DateTime::timestamp`:
/// the Unix seconds that the system clock reads now, before the epoch too, with no
/// time-zone lookup. Nothing is promised of the value.
#[verifier::external_body]
pub(crate) fn current_unix_second() -> (r: i64) {
    chrono::DateTime::<chrono::Utc>::from(std::time::SystemTime::now()).timestamp()
}

/// The configured value, or the default where none is given.
pub open spec fn or_default<T>(o: Option<T>, d: T) -> T {
    match o {
        Some(v) => v,
        None => d,
    }
}

/// Optional settings for a sequence generator; what is left out takes its default.
#[derive(Debug, Clone, Copy)]
pub struct UidGeneratorBuild {
    pub time_bits: Option<i32>,
    pub worker_bits: Option<i32>,
    pub seq_bits: Option<i32>,
    pub epoch_seconds: Option<i64>,
}

impl UidGeneratorBuild {
    pub fn form(
        time_bits: Option<i32>,
        worker_bits: Option<i32>,
        seq_bits: Option<i32>,
        epoch_seconds: Option<i64>,
    ) -> (r: UidGeneratorBuild)
        ensures
            r.time_bits == time_bits,
            r.worker_bits == worker_bits,
            r.seq_bits == seq_bits,
            r.epoch_seconds == epoch_seconds,
    {
        UidGeneratorBuild { time_bits, worker_bits, seq_bits, epoch_seconds }
    }

    /// The widths and epoch to use: each configured value, or its default.
    pub fn resolve(&self) -> (r: (i32, i32, i32, i64))
        ensures
            r.0 == self.spec_time_bits(),
            r.1 == self.spec_worker_bits(),
            r.2 == self.spec_seq_bits(),
            r.3 == self.spec_epoch_seconds(),
    {
        let time_bits = match self.time_bits {
            Some(v) => v,
            None => TIME_BITS,
        };
        let worker_bits = match self.worker_bits {
            Some(v) => v,
            None => WORKER_BITS,
        };
        let seq_bits = match self.seq_bits {
            Some(v) => v,
            None => SEQ_BITS,
        };
        let epoch_seconds = match self.epoch_seconds {
            Some(v) => v,
            None => EPOCH_SECONDS,
        };
        (time_bits, worker_bits, seq_bits, epoch_seconds)
    }

    pub open spec fn spec_time_bits(&self) -> i32 {
        or_default(self.time_bits, TIME_BITS)
    }

    pub open spec fn spec_worker_bits(&self) -> i32 {
        or_default(self.worker_bits, WORKER_BITS)
    }

    pub open spec fn spec_seq_bits(&self) -> i32 {
        or_default(self.seq_bits, SEQ_BITS)
    }

    pub open spec fn spec_epoch_seconds(&self) -> i64 {
        or_default(self.epoch_seconds, EPOCH_SECONDS)
    }

    /// Whether the widths fill 64 bits and `worker_id` fits in its field.
    pub open spec fn accepts(&self, worker_id: int) -> bool {
        &&& valid_bits(
            self.spec_time_bits() as int,
            self.spec_worker_bits() as int,
            self.spec_seq_bits() as int,
        )
        &&& 0 <= worker_id < pow2(self.spec_worker_bits() as nat)
    }
}

/// The per-second sequence counter: one identifier per call, never two alike
/// for one worker while the clock does not move back.
#[derive(Debug, Clone, Copy)]
pub struct InteriorDefaultUidGenerator {
    epoch_seconds: i64,
    bits_allocator: BitsAllocator,
    worker_id: i64,
    sequence: i64,
    last_second: i64,
}

impl InteriorDefaultUidGenerator {
    pub closed spec fn spec_epoch_seconds(&self) -> i64 {
        self.epoch_seconds
    }

    pub closed spec fn spec_allocator(&self) -> BitsAllocator {
        self.bits_allocator
    }

    pub closed spec fn spec_worker_id(&self) -> i64 {
        self.worker_id
    }

    pub closed spec fn spec_sequence(&self) -> i64 {
        self.sequence
    }

    /// The second since the epoch of the last identifier, or `NO_SECOND`.
    pub closed spec fn spec_last_second(&self) -> i64 {
        self.last_second
    }

    pub open spec fn wf(&self) -> bool {
        &&& self.spec_allocator().wf()
        &&& 0 <= self.spec_worker_id() <= self.spec_allocator().max_worker_id()
        &&& 0 <= self.spec_sequence() <= self.spec_allocator().max_sequence()
        &&& NO_SECOND <= self.spec_last_second() <= self.spec_allocator().max_delta_seconds()
    }

    /// Same layout, epoch and worker.
    pub open spec fn same_config(&self, other: &Self) -> bool {
        &&& self.spec_epoch_seconds() == other.spec_epoch_seconds()
        &&& self.spec_allocator() == other.spec_allocator()
        &&& self.spec_worker_id() == other.spec_worker_id()
    }

    /// Same configuration and same counter state.
    pub open spec fn unchanged(&self, other: &Self) -> bool {
        &&& self.same_config(other)
        &&& self.spec_sequence() == other.spec_sequence()
        &&& self.spec_last_second() == other.spec_last_second()
    }

    /// The identifier of `delta` and `sequence` for this worker.
    pub open spec fn id_of(&self, delta: int, sequence: int) -> int {
        self.spec_allocator().spec_allocate(delta, self.spec_worker_id() as int, sequence)
    }

    /// What one call at clock reading `now` (Unix seconds) returns, and the state it leaves.
    pub open spec fn steps_to(&self, now: int, next: &Self, r: Result<i64, GeneratorError>) -> bool {
        let delta = now - self.spec_epoch_seconds();
        let last = self.spec_last_second() as int;
        let seq = self.spec_sequence() as int;
        if delta > self.spec_allocator().max_delta_seconds() {
            r == Err::<i64, GeneratorError>(GeneratorError::TimestampBitsExhausted) && next.unchanged(
                self,
            )
        } else if 0 <= last && delta < last && last - delta <= i64::MAX {
            r == Err::<i64, GeneratorError>(
                GeneratorError::ClockMovedBackwards { seconds: (last - delta) as i64 },
            ) && next.unchanged(self)
        } else if delta < 0 {
            r == Err::<i64, GeneratorError>(GeneratorError::ClockBeforeEpoch) && next.unchanged(self)
        } else if delta == last && seq == self.spec_allocator().max_sequence() {
            r == Err::<i64, GeneratorError>(GeneratorError::SequenceExhausted) && next.unchanged(self)
        } else if delta == last {
            &&& r is Ok
            &&& r->Ok_0 == self.id_of(delta, seq + 1)
            &&& next.same_config(self)
            &&& next.spec_sequence() == seq + 1
            &&& next.spec_last_second() == last
        } else {
            &&& r is Ok
            &&& r->Ok_0 == self.id_of(delta, 0)
            &&& next.same_config(self)
            &&& next.spec_sequence() == 0
            &&& next.spec_last_second() == delta
        }
    }

    /// The identifier issued last, as `(second, sequence)`.
    pub open spec fn last_id(&self) -> int {
        self.id_of(self.spec_last_second() as int, self.spec_sequence() as int)
    }

    /// Every identifier issued is the one of the state it leaves: the second of
    /// the call and the sequence reached in it.
    pub proof fn lemma_issued_is_last(&self, now: int, next: &Self, id: i64)
        requires
            self.wf(),
            self.steps_to(now, next, Ok(id)),
        ensures
            id == next.last_id(),
            next.spec_last_second() == now - self.spec_epoch_seconds(),
    {
    }

    /// A burst of `k + 1` calls at one clock reading that starts a new second
    /// issues sequences `0, 1, ..., k` in call order, all in that second.
    pub proof fn lemma_burst(states: Seq<Self>, results: Seq<Result<i64, GeneratorError>>, now: int, k: int)
        requires
            0 <= k,
            states.len() == k + 2,
            results.len() == k + 1,
            forall|i: int| 0 <= i <= k ==> #[trigger] states[i].steps_to(now, &states[i + 1], results[i]),
            0 <= now - states[0].spec_epoch_seconds() <= states[0].spec_allocator().max_delta_seconds(),
            states[0].spec_last_second() < now - states[0].spec_epoch_seconds(),
            k <= states[0].spec_allocator().max_sequence(),
        ensures
            forall|i: int|
                0 <= i <= k ==> #[trigger] results[i] == Ok::<i64, GeneratorError>(
                    results[i]->Ok_0,
                ) && results[i]->Ok_0 == states[0].id_of(now - states[0].spec_epoch_seconds(), i),
            states[k + 1].same_config(&states[0]),
            states[k + 1].spec_sequence() == k,
            states[k + 1].spec_last_second() == now - states[0].spec_epoch_seconds(),
        decreases k,
    {
        if k > 0 {
            let ss = states.subrange(0, k + 1);
            let rs = results.subrange(0, k);
            assert forall|i: int| 0 <= i <= k - 1 implies #[trigger] ss[i].steps_to(now, &ss[i + 1], rs[i]) by {
                assert(ss[i] == states[i] && ss[i + 1] == states[i + 1] && rs[i] == results[i]);
            }
            Self::lemma_burst(ss, rs, now, k - 1);
            assert(states[k] == ss[k]);
            assert(states[k].steps_to(now, &states[k + 1], results[k]));
            assert forall|i: int| 0 <= i < k implies #[trigger] results[i] == Ok::<i64, GeneratorError>(
                results[i]->Ok_0,
            ) && results[i]->Ok_0 == states[0].id_of(now - states[0].spec_epoch_seconds(), i) by {
                assert(rs[i] == results[i]);
            }
        } else {
            assert(states[0].steps_to(now, &states[1], results[0]));
        }
    }

    /// Identifiers only grow: of two successful calls in a row, the second
    /// returns the greater identifier.
    pub proof fn lemma_ids_increase(
        &self,
        now1: int,
        mid: &Self,
        a: i64,
        now2: int,
        last: &Self,
        b: i64,
    )
        requires
            self.wf(),
            self.steps_to(now1, mid, Ok(a)),
            mid.wf(),
            mid.steps_to(now2, last, Ok(b)),
        ensures
            a < b,
    {
        let alloc = self.spec_allocator();
        let w = self.spec_worker_id() as int;
        alloc.lemma_allocate_ordered(
            w,
            mid.spec_last_second() as int,
            mid.spec_sequence() as int,
            last.spec_last_second() as int,
            last.spec_sequence() as int,
        );
    }

    /// Once a second's sequence space is used up, calls in that second are
    /// refused and change nothing; the next identifier comes from a strictly
    /// later second, with sequence 0.
    pub proof fn lemma_exhausted_second_waits(&self, now: int, next: &Self, r: Result<i64, GeneratorError>)
        requires
            self.wf(),
            self.spec_sequence() == self.spec_allocator().max_sequence(),
            self.steps_to(now, next, r),
        ensures
            0 <= now - self.spec_epoch_seconds() == self.spec_last_second() ==> r == Err::<i64, GeneratorError>(
                GeneratorError::SequenceExhausted,
            ) && next.unchanged(self),
            r is Ok ==> next.spec_last_second() > self.spec_last_second() && next.spec_sequence() == 0,
    {
    }

    /// A clock reading earlier than the last second used is refused with the
    /// size of the step back, and the counter state stays as it was.
    pub proof fn lemma_clock_rollback(&self, now: int, next: &Self, r: Result<i64, GeneratorError>)
        requires
            self.wf(),
            self.steps_to(now, next, r),
            0 <= now - self.spec_epoch_seconds() < self.spec_last_second(),
        ensures
            r == Err::<i64, GeneratorError>(
                GeneratorError::ClockMovedBackwards {
                    seconds: (self.spec_last_second() - (now - self.spec_epoch_seconds())) as i64,
                },
            ),
            next.spec_last_second() == self.spec_last_second(),
            next.spec_sequence() == self.spec_sequence(),
    {
    }

    /// A generator for `worker_id` with the settings of `build`.
    pub fn with_worker_id(build: UidGeneratorBuild, worker_id: i64) -> (r: Result<Self, ConfigError>)
        ensures
            match r {
                Ok(g) => {
                    &&& build.accepts(worker_id as int)
                    &&& g.wf()
                    &&& g.spec_epoch_seconds() == build.spec_epoch_seconds()
                    &&& g.spec_allocator().timestamp_bits() == build.spec_time_bits()
                    &&& g.spec_allocator().worker_id_bits() == build.spec_worker_bits()
                    &&& g.spec_allocator().sequence_bits() == build.spec_seq_bits()
                    &&& g.spec_worker_id() == worker_id
                    &&& g.spec_sequence() == 0
                    &&& g.spec_last_second() == NO_SECOND
                },
                Err(e) => {
                    &&& !build.accepts(worker_id as int)
                    &&& e == (if valid_bits(
                        build.spec_time_bits() as int,
                        build.spec_worker_bits() as int,
                        build.spec_seq_bits() as int,
                    ) {
                        ConfigError::WorkerIdExceeded
                    } else {
                        ConfigError::BitBudgetExceeded
                    })
                },
            },
    {
        let (time_bits, worker_bits, seq_bits, epoch_seconds) = build.resolve();
        let bits_allocator = match BitsAllocator::from(time_bits, worker_bits, seq_bits) {
            Ok(a) => a,
            Err(e) => {
                return Err(e);
            },
        };
        if worker_id < 0 || worker_id > bits_allocator.max_worker_id() {
            return Err(ConfigError::WorkerIdExceeded);
        }
        let g = InteriorDefaultUidGenerator {
            epoch_seconds,
            bits_allocator,
            worker_id,
            sequence: 0,
            last_second: NO_SECOND,
        };
        Ok(g)
    }

    /// A generator for the worker id that `DisposableWorkerIdAssigner` hands out.
    pub fn from(build: UidGeneratorBuild) -> (r: Result<Self, ConfigError>)
        ensures
            match r {
                Ok(g) => {
                    &&& build.accepts(1)
                    &&& g.wf()
                    &&& g.spec_epoch_seconds() == build.spec_epoch_seconds()
                    &&& g.spec_allocator().timestamp_bits() == build.spec_time_bits()
                    &&& g.spec_allocator().worker_id_bits() == build.spec_worker_bits()
                    &&& g.spec_allocator().sequence_bits() == build.spec_seq_bits()
                    &&& g.spec_worker_id() == 1
                    &&& g.spec_sequence() == 0
                    &&& g.spec_last_second() == NO_SECOND
                },
                Err(e) => !build.accepts(1),
            },
    {
        let assigner = DisposableWorkerIdAssigner::new();
        let worker_id = assigner.assign_worker_id();
        Self::with_worker_id(build, worker_id)
    }

    /// Issues the next identifier for the clock reading `now_second` (Unix seconds).
    pub fn next_id_at(&mut self, now_second: i64) -> (r: Result<i64, GeneratorError>)
        requires
            old(self).wf(),
        ensures
            final(self).wf(),
            old(self).steps_to(now_second as int, &*final(self), r),
    {
        let delta_wide: i128 = now_second as i128 - self.epoch_seconds as i128;
        if delta_wide > self.bits_allocator.max_delta_seconds() as i128 {
            return Err(GeneratorError::TimestampBitsExhausted);
        }
        let last_wide: i128 = self.last_second as i128;
        if 0 <= last_wide && delta_wide < last_wide && last_wide - delta_wide <= i64::MAX as i128 {
            return Err(GeneratorError::ClockMovedBackwards { seconds: (last_wide - delta_wide) as i64 });
        }
        if delta_wide < 0 {
            return Err(GeneratorError::ClockBeforeEpoch);
        }
        let delta = delta_wide as i64;
        if delta == self.last_second {
            if self.sequence == self.bits_allocator.max_sequence() {
                return Err(GeneratorError::SequenceExhausted);
            }
            self.sequence = self.sequence + 1;
        } else {
            self.sequence = 0;
        }
        self.last_second = delta;
        Ok(self.bits_allocator.allocate(delta, self.worker_id, self.sequence))
    }

    /// Issues the next identifier for the second the system clock reads now.
    pub fn next_id(&mut self) -> (r: Result<i64, GeneratorError>)
        requires
            old(self).wf(),
        ensures
            final(self).wf(),
            exists|now: i64| old(self).steps_to(now as int, &*final(self), r),
    {
        let now = current_unix_second();
        self.next_id_at(now)
    }

    pub fn parse_uid(&self, uid: i64) -> (r: UidParts)
        requires
            self.wf(),
        ensures
            r.delta_seconds == self.spec_allocator().unpack_delta(uid as u64 as int),
            r.worker_id == self.spec_allocator().unpack_worker(uid as u64 as int),
            r.sequence == self.spec_allocator().unpack_sequence(uid as u64 as int),
    {
        self.bits_allocator.parse_uid(uid)
    }
}

/// The synchronous generator: each call reads the clock and issues one identifier.
/// Exclusive access (`&mut self`) serializes the calls.
pub struct DefaultUidGenerator {
    uid_generator: InteriorDefaultUidGenerator,
}

impl DefaultUidGenerator {
    /// The sequence generator inside.
    pub closed spec fn spec_generator(&self) -> InteriorDefaultUidGenerator {
        self.uid_generator
    }

    /// A generator for the worker id that `DisposableWorkerIdAssigner` hands out.
    pub fn from(build: UidGeneratorBuild) -> (r: Result<Self, ConfigError>)
        ensures
            match r {
                Ok(g) => {
                    &&& build.accepts(1)
                    &&& g.spec_generator().wf()
                    &&& g.spec_generator().spec_epoch_seconds() == build.spec_epoch_seconds()
                    &&& g.spec_generator().spec_allocator().timestamp_bits() == build.spec_time_bits()
                    &&& g.spec_generator().spec_allocator().worker_id_bits() == build.spec_worker_bits()
                    &&& g.spec_generator().spec_allocator().sequence_bits() == build.spec_seq_bits()
                    &&& g.spec_generator().spec_worker_id() == 1
                    &&& g.spec_generator().spec_sequence() == 0
                    &&& g.spec_generator().spec_last_second() == NO_SECOND
                },
                Err(e) => !build.accepts(1),
            },
    {
        match InteriorDefaultUidGenerator::from(build) {
            Ok(uid_generator) => Ok(DefaultUidGenerator { uid_generator }),
            Err(e) => Err(e),
        }
    }

    /// Issues the next identifier for the clock reading `now_second` (Unix seconds).
    pub fn get_uid_at(&mut self, now_second: i64) -> (r: Result<i64, GeneratorError>)
        requires
            old(self).spec_generator().wf(),
        ensures
            final(self).spec_generator().wf(),
            old(self).spec_generator().steps_to(now_second as int, &final(self).spec_generator(), r),
    {
        self.uid_generator.next_id_at(now_second)
    }
}

impl UidGenerator for DefaultUidGenerator {
    open spec fn inv(&self) -> bool {
        self.spec_generator().wf()
    }

    /// Issues the next identifier for the second the system clock reads now.
    fn get_uid(&mut self) -> (r: Result<i64, GeneratorError>)
        ensures
            exists|now: i64|
                old(self).spec_generator().steps_to(now as int, &final(self).spec_generator(), r),
    {
        let now = current_unix_second();
        let r = self.uid_generator.next_id_at(now);
        assert(old(self).spec_generator().steps_to(now as int, &self.spec_generator(), r));
        r
    }

    fn parse_uid(&self, uid: i64) -> (r: UidParts)
        ensures
            r.delta_seconds == self.spec_generator().spec_allocator().unpack_delta(uid as u64 as int),
            r.worker_id == self.spec_generator().spec_allocator().unpack_worker(uid as u64 as int),
            r.sequence == self.spec_generator().spec_allocator().unpack_sequence(uid as u64 as int),
    {
        self.uid_generator.parse_uid(uid)
    }
}

} // verus!

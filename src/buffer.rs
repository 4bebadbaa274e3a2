use vstd::prelude::*;
use vstd::arithmetic::power2::{pow2, lemma_pow2_pos, lemma_pow2_strictly_increases, lemma2_to64, lemma2_to64_rest};
use vstd::arithmetic::div_mod::{
    lemma_fundamental_div_mod, lemma_fundamental_div_mod_converse, lemma_mod_bound, lemma_small_mod,
};
use vstd::bits::{low_bits_mask, lemma_u64_low_bits_mask_is_mod};
use crate::{bit_count, is_power_of_two, lemma_power_of_two_iff_one_bit};
use crate::error::ConfigError;

verus! {

/// Position of `tail` and `cursor` before anything was put or taken.
pub const START_POINT: i64 = -1;

/// Slot flag: the slot is free to be written.
pub const CAN_PUT_FLAG: i8 = 0;

/// Slot flag: the slot holds an identifier not yet taken.
pub const CAN_TAKE_FLAG: i8 = 1;

/// A read-only picture of a ring buffer, handed to the rejection handlers.
#[derive(Debug, Clone, Copy, PartialEq, Eq, Structural)]
pub struct BufferSnapshot {
    pub buffer_size: usize,
    pub tail: i64,
    pub cursor: i64,
    pub padding_threshold: usize,
}

/// What to do when `put` finds the buffer full.
pub trait RejectedPutBufferHandler: Send {
    fn reject_put_buffer(&self, snapshot: &BufferSnapshot, uid: i64);
}

/// What to do when `take` finds the buffer empty.
pub trait RejectedTakeBufferHandler: Send {
    fn reject_take_buffer(&self, snapshot: &BufferSnapshot);
}

/// Handler that ignores a rejected `put`.
#[derive(Debug, Clone, Copy)]
pub struct DefaultRejectedPutBufferHandler;

impl DefaultRejectedPutBufferHandler {
    pub fn new() -> (r: Self) {
        DefaultRejectedPutBufferHandler
    }
}

impl RejectedPutBufferHandler for DefaultRejectedPutBufferHandler {
    fn reject_put_buffer(&self, snapshot: &BufferSnapshot, uid: i64) {
    }
}

/// Handler that ignores a rejected `take`.
#[derive(Debug, Clone, Copy)]
pub struct DefaultRejectedTakeBufferHandler;

impl DefaultRejectedTakeBufferHandler {
    pub fn new() -> (r: Self) {
        DefaultRejectedTakeBufferHandler
    }
}

impl RejectedTakeBufferHandler for DefaultRejectedTakeBufferHandler {
    fn reject_take_buffer(&self, snapshot: &BufferSnapshot) {
    }
}

/// `a` and `b` less than `n` apart fall in different slots.
proof fn lemma_mod_distinct(a: int, b: int, n: int)
    requires
        n > 0,
        a < b < a + n,
    ensures
        a % n != b % n,
{
    lemma_fundamental_div_mod(a, n);
    lemma_fundamental_div_mod(b, n);
    if a % n == b % n {
        let qa = a / n;
        let qb = b / n;
        assert(false) by (nonlinear_arith)
            requires
                a == n * qa + a % n,
                b == n * qb + b % n,
                a % n == b % n,
                a < b < a + n,
                n > 0,
        ;
    }
}

/// `a` and `a + n` fall in the same slot.
proof fn lemma_mod_wrap(a: int, n: int)
    requires
        n > 0,
    ensures
        (a + n) % n == a % n,
{
    lemma_fundamental_div_mod(a, n);
    lemma_mod_bound(a, n);
    assert((a / n + 1) * n == n * (a / n) + n) by (nonlinear_arith);
    lemma_fundamental_div_mod_converse(a + n, n, a / n + 1, a % n);
}

/// A fixed-capacity circular cache of identifiers. Positions `cursor + 1 ..= tail`
/// hold the identifiers put and not yet taken, oldest first; position `p` lives
/// in slot `p % T`, and one slot is always kept free.
pub struct RingBuffer<const T: usize> {
    buffer_size: usize,
    index_mask: i64,
    slots: Vec<i64>,
    flags: Vec<i8>,
    tail: i64,
    cursor: i64,
    padding_threshold: usize,
    rejected_put_handler: Box<dyn RejectedPutBufferHandler>,
    rejected_take_handler: Box<dyn RejectedTakeBufferHandler>,
    log_size: Ghost<nat>,
}

impl<const T: usize> View for RingBuffer<T> {
    type V = Seq<i64>;

    /// The identifiers held, in the order they will be taken.
    closed spec fn view(&self) -> Seq<i64> {
        Seq::new((self.tail - self.cursor) as nat, |i: int| self.slots@[(self.cursor + 1 + i) % (T as int)])
    }
}

impl<const T: usize> RingBuffer<T> {
    pub closed spec fn spec_tail(&self) -> i64 {
        self.tail
    }

    pub closed spec fn spec_cursor(&self) -> i64 {
        self.cursor
    }

    pub closed spec fn spec_padding_threshold(&self) -> usize {
        self.padding_threshold
    }

    /// The capacity is a power of two; the filled region spans at most `T - 1`
    /// positions, and a slot is flagged takeable exactly when it holds one of them.
    pub closed spec fn wf(&self) -> bool {
        &&& self.buffer_size == T
        &&& pow2(self.log_size@) == T
        &&& self.log_size@ < 64
        &&& 1 <= T <= 0x8000_0000_0000_0000
        &&& self.index_mask == T - 1
        &&& self.padding_threshold < T
        &&& self.slots@.len() == T
        &&& self.flags@.len() == T
        &&& START_POINT <= self.cursor <= self.tail
        &&& self.tail - self.cursor < T
        &&& forall|s: int|
            self.cursor < s <= self.tail ==> #[trigger] self.flags@[s % (T as int)] == CAN_TAKE_FLAG
        &&& forall|s: int|
            self.tail < s <= self.cursor + T ==> #[trigger] self.flags@[s % (T as int)] == CAN_PUT_FLAG
    }

    /// Whether `put` accepts an identifier: fewer than `T - 1` are held and
    /// positions have not run out.
    pub open spec fn can_put(&self) -> bool {
        self@.len() < T - 1 && self.spec_tail() < i64::MAX
    }

    /// The filled region is exactly the identifiers held.
    pub proof fn lemma_view_len(&self)
        requires
            self.wf(),
        ensures
            self@.len() == self.spec_tail() - self.spec_cursor(),
            START_POINT <= self.spec_cursor() <= self.spec_tail(),
            self@.len() < T,
            1 <= T <= 0x8000_0000_0000_0000,
    {
    }

    /// A well-formed buffer has a power-of-two capacity.
    pub proof fn lemma_capacity_power_of_two(&self)
        requires
            self.wf(),
        ensures
            is_power_of_two(T as nat),
    {
        assert(pow2(self.log_size@) == T);
    }

    /// A buffer that nothing was put into holds nothing, so `take` on it returns `None`.
    pub proof fn lemma_fresh_is_empty(&self)
        requires
            self.wf(),
            self.spec_tail() == START_POINT,
            self.spec_cursor() == START_POINT,
        ensures
            self@.len() == 0,
    {
    }

    /// Filling a fresh buffer: of `k <= T - 1` puts in a row, each succeeds and
    /// appends its value; after `T - 1` of them the next `put` is refused.
    pub proof fn lemma_fill_fresh(states: Seq<Self>, values: Seq<i64>, results: Seq<bool>, k: int)
        requires
            0 <= k <= T - 1,
            states.len() == k + 1,
            values.len() == k,
            results.len() == k,
            states[0].wf(),
            states[0].spec_tail() == START_POINT,
            states[0].spec_cursor() == START_POINT,
            forall|i: int|
                0 <= i < k ==> {
                    &&& #[trigger] states[i + 1].wf()
                    &&& results[i] == states[i].can_put()
                    &&& results[i] ==> states[i + 1]@ == states[i]@.push(values[i])
                        && states[i + 1].spec_tail() == states[i].spec_tail() + 1
                    &&& !results[i] ==> states[i + 1]@ == states[i]@ && states[i + 1].spec_tail()
                        == states[i].spec_tail()
                },
        ensures
            forall|i: int| 0 <= i < k ==> #[trigger] results[i],
            states[k]@ == values,
            states[k].spec_tail() == k - 1,
            k == T - 1 ==> !states[k].can_put(),
        decreases k,
    {
        if k > 0 {
            let ss = states.subrange(0, k);
            let vs = values.subrange(0, k - 1);
            let rs = results.subrange(0, k - 1);
            assert forall|i: int|
                0 <= i < k - 1 implies {
                    &&& #[trigger] ss[i + 1].wf()
                    &&& rs[i] == ss[i].can_put()
                    &&& rs[i] ==> ss[i + 1]@ == ss[i]@.push(vs[i]) && ss[i + 1].spec_tail() == ss[i].spec_tail()
                        + 1
                    &&& !rs[i] ==> ss[i + 1]@ == ss[i]@ && ss[i + 1].spec_tail() == ss[i].spec_tail()
                } by {
                assert(ss[i] == states[i] && ss[i + 1] == states[i + 1] && rs[i] == results[i] && vs[i]
                    == values[i]);
            }
            Self::lemma_fill_fresh(ss, vs, rs, k - 1);
            assert(states[k - 1] == ss[k - 1]);
            let j = k - 1;
            assert(states[j + 1].wf());
            assert(states[j]@.len() == j && states[j].spec_tail() == j - 1);
            assert(results[j]);
            assert forall|i: int| 0 <= i < k implies #[trigger] results[i] by {
                if i < k - 1 {
                    assert(rs[i] == results[i]);
                }
            }
            assert(states[k]@ =~= values);
        } else {
            assert(states[0]@ =~= values);
        }
    }

    /// Holding `T - 1` identifiers the buffer refuses `put`; once one is taken
    /// it accepts one again, as long as positions have not run out.
    pub proof fn lemma_full_until_take(full: &Self, after_take: &Self)
        requires
            T >= 2,
            full.wf(),
            full@.len() == T - 1,
            full.spec_tail() < i64::MAX,
            after_take.wf(),
            after_take@ == full@.drop_first(),
            after_take.spec_tail() == full.spec_tail(),
        ensures
            !full.can_put(),
            after_take.can_put(),
    {
    }

    /// Nothing lost or served twice, across a `put`: if what was taken so far,
    /// followed by what is held, is what was put so far, that stays so.
    pub proof fn lemma_put_conserves(taken: Seq<i64>, puts: Seq<i64>, before: &Self, after: &Self, uid: i64)
        requires
            taken + before@ == puts,
            after@ == before@.push(uid),
        ensures
            taken + after@ == puts.push(uid),
    {
        assert(taken + after@ =~= puts.push(uid));
    }

    /// Nothing lost or served twice, across a `take` that returned `uid`: the
    /// identifier taken is the oldest held, and the history stays whole.
    pub proof fn lemma_take_conserves(taken: Seq<i64>, puts: Seq<i64>, before: &Self, after: &Self, uid: i64)
        requires
            taken + before@ == puts,
            before@.len() > 0,
            uid == before@[0],
            after@ == before@.drop_first(),
        ensures
            taken.push(uid) + after@ == puts,
    {
        assert(taken.push(uid) + after@ =~= taken + before@);
    }

    /// Builds an empty buffer of capacity `T`, which must be a power of two, with a
    /// refill threshold of `padding_factor` percent of it.
    pub fn from(padding_factor: usize) -> (r: Result<Self, ConfigError>)
        ensures
            match r {
                Ok(b) => {
                    &&& is_power_of_two(T as nat)
                    &&& 0 < padding_factor < 100
                    &&& b.wf()
                    &&& b@ == Seq::<i64>::empty()
                    &&& b.spec_tail() == START_POINT
                    &&& b.spec_cursor() == START_POINT
                    &&& b.spec_padding_threshold() == (T as int * padding_factor as int) / 100
                },
                Err(e) => {
                    ||| !is_power_of_two(T as nat) && e == ConfigError::InvalidCapacity
                    ||| is_power_of_two(T as nat) && !(0 < padding_factor < 100) && e
                        == ConfigError::InvalidPaddingFactor
                },
            },
    {
        proof {
            lemma_power_of_two_iff_one_bit(T as nat);
        }
        if bit_count(T) != 1 {
            return Err(ConfigError::InvalidCapacity);
        }
        if padding_factor == 0 || padding_factor >= 100 {
            return Err(ConfigError::InvalidPaddingFactor);
        }
        let ghost k = choose|k: nat| pow2(k) == T;
        proof {
            lemma2_to64();
            lemma2_to64_rest();
            if k >= 64 {
                if k > 64 {
                    lemma_pow2_strictly_increases(64, k);
                }
                assert(false);
            }
            if k < 63 {
                lemma_pow2_strictly_increases(k, 63);
            }
            lemma_pow2_pos(k);
        }
        let mut slots: Vec<i64> = Vec::new();
        let mut flags: Vec<i8> = Vec::new();
        let mut i: usize = 0;
        while i < T
            invariant
                i <= T,
                slots@.len() == i,
                flags@.len() == i,
                forall|j: int| 0 <= j < i ==> flags@[j] == CAN_PUT_FLAG,
            decreases T - i,
        {
            slots.push(0);
            flags.push(CAN_PUT_FLAG);
            i = i + 1;
        }
        proof {
            assert(T as int * padding_factor as int <= 0x8000_0000_0000_0000 * 100) by (nonlinear_arith)
                requires
                    0 < padding_factor < 100,
                    1 <= T <= 0x8000_0000_0000_0000,
            ;
            assert((T as int * padding_factor as int) / 100 < T) by (nonlinear_arith)
                requires
                    0 < padding_factor < 100,
                    T >= 1,
            ;
        }
        let threshold = ((T as u128) * (padding_factor as u128) / 100) as usize;
        let buffer = RingBuffer {
            buffer_size: T,
            index_mask: (T - 1) as i64,
            slots,
            flags,
            tail: START_POINT,
            cursor: START_POINT,
            padding_threshold: threshold,
            rejected_put_handler: Box::new(DefaultRejectedPutBufferHandler::new()),
            rejected_take_handler: Box::new(DefaultRejectedTakeBufferHandler::new()),
            log_size: Ghost(k),
        };
        proof {
            assert forall|s: int| START_POINT < s <= START_POINT + T implies #[trigger] buffer.flags@[s
                % (T as int)] == CAN_PUT_FLAG by {
                lemma_small_mod(s as nat, T as nat);
            }
            assert(buffer@ =~= Seq::<i64>::empty());
        }
        Ok(buffer)
    }

    /// The slot that position `sequence` lives in.
    fn cal_slot_index(&self, sequence: i64) -> (r: i64)
        requires
            self.wf(),
            sequence >= 0,
        ensures
            r == (sequence as int) % (T as int),
            0 <= r < T,
    {
        proof {
            lemma_u64_low_bits_mask_is_mod(sequence as u64, self.log_size@);
            assert(self.index_mask as u64 == low_bits_mask(self.log_size@) as u64);
            lemma_mod_bound(sequence as int, T as int);
        }
        ((sequence as u64) & (self.index_mask as u64)) as i64
    }

    /// The buffer's size, positions and threshold.
    pub fn describe(&self) -> (r: BufferSnapshot)
        requires
            self.wf(),
        ensures
            r.buffer_size == T,
            r.tail == self.spec_tail(),
            r.cursor == self.spec_cursor(),
            r.padding_threshold == self.spec_padding_threshold(),
    {
        BufferSnapshot {
            buffer_size: self.buffer_size,
            tail: self.tail,
            cursor: self.cursor,
            padding_threshold: self.padding_threshold,
        }
    }

    /// Appends `uid` unless the buffer is full (it holds `T - 1` identifiers), in
    /// which case the put handler is told and nothing changes.
    pub fn put(&mut self, uid: i64) -> (r: bool)
        requires
            old(self).wf(),
        ensures
            final(self).wf(),
            r == old(self).can_put(),
            r ==> final(self)@ == old(self)@.push(uid),
            r ==> final(self).spec_tail() == old(self).spec_tail() + 1,
            !r ==> final(self)@ == old(self)@,
            !r ==> final(self).spec_tail() == old(self).spec_tail(),
            final(self).spec_cursor() == old(self).spec_cursor(),
            final(self).spec_padding_threshold() == old(self).spec_padding_threshold(),
    {
        let current_tail = self.tail;
        let current_cursor = self.cursor;
        let distance = current_tail - current_cursor;
        if distance == (T - 1) as i64 || current_tail == i64::MAX {
            let snapshot = self.describe();
            self.rejected_put_handler.reject_put_buffer(&snapshot, uid);
            return false;
        }
        let next_tail_index = self.cal_slot_index(current_tail + 1);
        let index = next_tail_index as usize;
        proof {
            let n = T as int;
            assert(self.flags@[(current_tail + 1) % n] == CAN_PUT_FLAG);
        }
        if self.flags[index] != CAN_PUT_FLAG {
            let snapshot = self.describe();
            self.rejected_put_handler.reject_put_buffer(&snapshot, uid);
            return false;
        }
        let ghost old_buffer = *self;
        self.slots.set(index, uid);
        self.flags.set(index, CAN_TAKE_FLAG);
        self.tail = current_tail + 1;
        proof {
            let n = T as int;
            let c = current_cursor as int;
            let t = current_tail as int;
            assert forall|s: int| c < s <= t + 1 implies #[trigger] self.flags@[s % n]
                == CAN_TAKE_FLAG by {
                if s != t + 1 {
                    lemma_mod_distinct(s, t + 1, n);
                    assert(old_buffer.flags@[s % n] == CAN_TAKE_FLAG);
                }
            }
            assert forall|s: int| t + 1 < s <= c + n implies #[trigger] self.flags@[s % n]
                == CAN_PUT_FLAG by {
                lemma_mod_distinct(t + 1, s, n);
                assert(old_buffer.flags@[s % n] == CAN_PUT_FLAG);
            }
            assert forall|i: int| 0 <= i < self@.len() implies #[trigger] self@[i]
                == old_buffer@.push(uid)[i] by {
                if i < t - c {
                    lemma_mod_distinct(c + 1 + i, t + 1, n);
                }
            }
            assert(self@ =~= old_buffer@.push(uid));
        }
        true
    }

    /// Removes and returns the oldest identifier; on an empty buffer the take
    /// handler is told and `None` comes back.
    /// `take`, also reporting whether fewer identifiers than the padding
    /// threshold remain afterwards: the low-watermark signal for a refill.
    pub fn take_signalled(&mut self) -> (r: (Option<i64>, bool))
        requires
            old(self).wf(),
        ensures
            final(self).wf(),
            old(self)@.len() == 0 ==> r.0 == None::<i64> && final(self)@ == old(self)@
                && final(self).spec_cursor() == old(self).spec_cursor(),
            old(self)@.len() > 0 ==> r.0 == Some(old(self)@[0]) && final(self)@ == old(self)@.drop_first()
                && final(self).spec_cursor() == old(self).spec_cursor() + 1,
            final(self).spec_tail() == old(self).spec_tail(),
            final(self).spec_padding_threshold() == old(self).spec_padding_threshold(),
            r.1 == (final(self)@.len() < final(self).spec_padding_threshold()),
    {
        let taken = self.take();
        let refill_due = self.needs_padding();
        (taken, refill_due)
    }

    pub fn take(&mut self) -> (r: Option<i64>)
        requires
            old(self).wf(),
        ensures
            final(self).wf(),
            old(self)@.len() == 0 ==> r == None::<i64> && final(self)@ == old(self)@
                && final(self).spec_cursor() == old(self).spec_cursor(),
            old(self)@.len() > 0 ==> r == Some(old(self)@[0]) && final(self)@ == old(self)@.drop_first()
                && final(self).spec_cursor() == old(self).spec_cursor() + 1,
            final(self).spec_tail() == old(self).spec_tail(),
            final(self).spec_padding_threshold() == old(self).spec_padding_threshold(),
    {
        let current_cursor = self.cursor;
        if current_cursor == self.tail {
            let snapshot = self.describe();
            self.rejected_take_handler.reject_take_buffer(&snapshot);
            return None;
        }
        let next_cursor = current_cursor + 1;
        let index = self.cal_slot_index(next_cursor) as usize;
        proof {
            assert(self.flags@[index as int] == CAN_TAKE_FLAG);
        }
        let ghost old_buffer = *self;
        let uid = self.slots[index];
        self.flags.set(index, CAN_PUT_FLAG);
        self.cursor = next_cursor;
        proof {
            let n = T as int;
            let c = current_cursor as int;
            let t = self.tail as int;
            assert forall|s: int| c + 1 < s <= t implies #[trigger] self.flags@[s % n]
                == CAN_TAKE_FLAG by {
                lemma_mod_distinct(c + 1, s, n);
                assert(old_buffer.flags@[s % n] == CAN_TAKE_FLAG);
            }
            assert forall|s: int| t < s <= c + 1 + n implies #[trigger] self.flags@[s % n]
                == CAN_PUT_FLAG by {
                if s == c + 1 + n {
                    lemma_mod_wrap(c + 1, n);
                } else {
                    lemma_mod_distinct(c + 1, s, n);
                    assert(old_buffer.flags@[s % n] == CAN_PUT_FLAG);
                }
            }
            assert(self@ =~= old_buffer@.drop_first());
        }
        Some(uid)
    }

    /// Whether `put` would accept an identifier now.
    pub fn has_room(&self) -> (r: bool)
        requires
            self.wf(),
        ensures
            r == self.can_put(),
    {
        self.tail - self.cursor < (T - 1) as i64 && self.tail < i64::MAX
    }

    /// Whether fewer identifiers than the padding threshold remain, so a refill is due.
    pub fn needs_padding(&self) -> (r: bool)
        requires
            self.wf(),
        ensures
            r == (self@.len() < self.spec_padding_threshold()),
    {
        self.tail - self.cursor < self.padding_threshold as i64
    }

    /// Prepares the buffer for use; an empty buffer needs nothing more.
    pub fn init_buffer(&mut self) -> (r: Result<(), ConfigError>)
        ensures
            r is Ok,
            final(self)@ == old(self)@,
            final(self).spec_tail() == old(self).spec_tail(),
            final(self).spec_cursor() == old(self).spec_cursor(),
            final(self).spec_padding_threshold() == old(self).spec_padding_threshold(),
            old(self).wf() ==> final(self).wf(),
    {
        Ok(())
    }

    /// Replaces the handler told of a rejected `put`.
    pub fn set_rejected_put_handler(&mut self, rejected_put_handler: Box<dyn RejectedPutBufferHandler>)
        ensures
            final(self)@ == old(self)@,
            final(self).spec_tail() == old(self).spec_tail(),
            final(self).spec_cursor() == old(self).spec_cursor(),
            final(self).spec_padding_threshold() == old(self).spec_padding_threshold(),
            old(self).wf() ==> final(self).wf(),
    {
        self.rejected_put_handler = rejected_put_handler;
    }

    /// Replaces the handler told of a rejected `take`.
    pub fn set_rejected_take_handler(&mut self, rejected_take_handler: Box<dyn RejectedTakeBufferHandler>)
        ensures
            final(self)@ == old(self)@,
            final(self).spec_tail() == old(self).spec_tail(),
            final(self).spec_cursor() == old(self).spec_cursor(),
            final(self).spec_padding_threshold() == old(self).spec_padding_threshold(),
            old(self).wf() ==> final(self).wf(),
    {
        self.rejected_take_handler = rejected_take_handler;
    }
}

} // verus!

use std::sync::{Arc, Mutex};
use uid_generator::bit_count;
use uid_generator::buffer::{
    BufferSnapshot, DefaultRejectedPutBufferHandler, DefaultRejectedTakeBufferHandler, RejectedPutBufferHandler,
    RejectedTakeBufferHandler, RingBuffer,
};
use uid_generator::error::ConfigError;

#[test]
fn buffer() {
    const SIZE: usize = 1024;
    let x = RingBuffer::<SIZE>::from(50).unwrap();
    let arc = Arc::new(Mutex::new(x));
    let mut put = 0;
    for i in 0..SIZE {
        if arc.lock().unwrap().put(i as i64) {
            put += 1;
        }
    }
    assert_eq!(put, SIZE - 1);
    let mut vec1 = vec![];
    loop {
        match arc.lock().unwrap().take() {
            None => break,
            Some(uis) => vec1.push(uis),
        }
    }
    assert_eq!(vec1.len(), SIZE - 1);
    for (i, v) in vec1.iter().enumerate() {
        assert_eq!(*v, i as i64);
    }
}

#[test]
fn bit_count_counts_ones() {
    assert_eq!(bit_count(0), 0);
    assert_eq!(bit_count(1), 1);
    assert_eq!(bit_count(1024), 1);
    assert_eq!(bit_count(255), 8);
    assert_eq!(bit_count(6), 2);
    assert_eq!(bit_count(usize::MAX), usize::BITS as usize);
}

#[test]
fn full_buffer_rejects_until_take() {
    let mut b = RingBuffer::<8>::from(50).unwrap();
    for i in 0..7 {
        assert!(b.put(100 + i));
    }
    assert!(!b.put(200));
    assert!(!b.has_room());
    assert_eq!(b.take(), Some(100));
    assert!(b.has_room());
    assert!(b.put(201));
    assert!(!b.put(202));
}

#[test]
fn fresh_buffer_take_is_none() {
    let mut b = RingBuffer::<16>::from(25).unwrap();
    assert_eq!(b.take(), None);
    let s = b.describe();
    assert_eq!(s, BufferSnapshot { buffer_size: 16, tail: -1, cursor: -1, padding_threshold: 4 });
}

#[test]
fn interleaved_puts_and_takes_lose_nothing() {
    let mut b = RingBuffer::<4>::from(50).unwrap();
    let mut put_values = vec![];
    let mut taken = vec![];
    let mut next = 0i64;
    for round in 0..40 {
        if round % 3 != 2 {
            if b.put(next) {
                put_values.push(next);
            }
            next += 1;
        } else if let Some(v) = b.take() {
            taken.push(v);
        }
        let s = b.describe();
        assert!(s.cursor <= s.tail);
        assert!(s.tail - s.cursor <= 3);
    }
    while let Some(v) = b.take() {
        taken.push(v);
    }
    assert_eq!(taken, put_values);
}

#[test]
fn wraps_around_many_times() {
    let mut b = RingBuffer::<2>::from(50).unwrap();
    for i in 0..100 {
        assert!(b.put(i));
        assert!(!b.put(-1));
        assert_eq!(b.take(), Some(i));
        assert_eq!(b.take(), None);
    }
}

#[test]
fn capacity_must_be_power_of_two() {
    assert_eq!(RingBuffer::<6>::from(50).err(), Some(ConfigError::InvalidCapacity));
    assert_eq!(RingBuffer::<0>::from(50).err(), Some(ConfigError::InvalidCapacity));
    assert!(RingBuffer::<1>::from(50).is_ok());
}

#[test]
fn padding_factor_must_be_a_percentage() {
    assert_eq!(RingBuffer::<8>::from(0).err(), Some(ConfigError::InvalidPaddingFactor));
    assert_eq!(RingBuffer::<8>::from(100).err(), Some(ConfigError::InvalidPaddingFactor));
    assert!(RingBuffer::<8>::from(99).is_ok());
}

#[test]
fn padding_threshold_signals_refill() {
    let mut b = RingBuffer::<8>::from(50).unwrap();
    assert_eq!(b.describe().padding_threshold, 4);
    assert!(b.needs_padding());
    for i in 0..4 {
        b.put(i);
    }
    assert!(!b.needs_padding());
    b.take();
    assert!(b.needs_padding());
}

struct Counting(Arc<Mutex<Vec<i64>>>);

impl RejectedPutBufferHandler for Counting {
    fn reject_put_buffer(&self, _snapshot: &BufferSnapshot, uid: i64) {
        self.0.lock().unwrap().push(uid);
    }
}

impl RejectedTakeBufferHandler for Counting {
    fn reject_take_buffer(&self, snapshot: &BufferSnapshot) {
        self.0.lock().unwrap().push(snapshot.cursor);
    }
}

#[test]
fn rejection_handlers_are_called() {
    let puts = Arc::new(Mutex::new(vec![]));
    let takes = Arc::new(Mutex::new(vec![]));
    let mut b = RingBuffer::<2>::from(50).unwrap();
    b.set_rejected_put_handler(Box::new(Counting(puts.clone())));
    b.set_rejected_take_handler(Box::new(Counting(takes.clone())));
    assert_eq!(b.take(), None);
    assert!(b.put(1));
    assert!(!b.put(2));
    assert_eq!(*puts.lock().unwrap(), vec![2]);
    assert_eq!(*takes.lock().unwrap(), vec![-1]);
    b.set_rejected_put_handler(Box::new(DefaultRejectedPutBufferHandler::new()));
    b.set_rejected_take_handler(Box::new(DefaultRejectedTakeBufferHandler::new()));
    assert!(!b.put(3));
    assert_eq!(*puts.lock().unwrap(), vec![2]);
    assert!(b.init_buffer().is_ok());
}

#[test]
fn take_signals_low_watermark() {
    let mut b = RingBuffer::<8>::from(50).unwrap();
    for i in 0..6 {
        assert!(b.put(i));
    }
    assert_eq!(b.take_signalled(), (Some(0), false));
    assert_eq!(b.take_signalled(), (Some(1), false));
    assert_eq!(b.take_signalled(), (Some(2), true));
    b.take();
    b.take();
    b.take();
    assert_eq!(b.take_signalled(), (None, true));
}

use uid_generator::allocator::BitsAllocator;
use uid_generator::cached_generator::{CacheUidGenerator, DEFAULT_PADDING_FACTOR};
use uid_generator::default_generator::UidGeneratorBuild;
use uid_generator::error::{ConfigError, GeneratorError};
use uid_generator::UidGenerator;

const EPOCH: i64 = 1660665600;

fn build(seq_bits: i32) -> UidGeneratorBuild {
    UidGeneratorBuild::form(Some(29), Some(34 - seq_bits), Some(seq_bits), Some(EPOCH))
}

#[test]
fn one_second_batch_is_every_sequence() {
    let g = CacheUidGenerator::<16>::init(build(3), DEFAULT_PADDING_FACTOR).unwrap();
    let a = BitsAllocator::from(29, 31, 3).unwrap();
    let ids = g.next_ids_for_one_second(EPOCH + 12);
    let expected: Vec<i64> = (0..8).map(|s| a.allocate(12, 1, s)).collect();
    assert_eq!(ids, expected);
}

#[test]
fn empty_cache_is_exhausted() {
    let mut g = CacheUidGenerator::<16>::init(build(3), 50).unwrap();
    assert_eq!(g.get_uid(), Err(GeneratorError::CacheExhausted));
    assert!(g.needs_padding());
}

#[test]
fn refill_fills_whole_seconds_in_order() {
    let mut g = CacheUidGenerator::<16>::init(build(2), 50).unwrap();
    let a = BitsAllocator::from(29, 32, 2).unwrap();
    assert_eq!(g.refill_at(EPOCH + 10), Ok(15));
    assert!(!g.needs_padding());
    for i in 0..15i64 {
        let id = g.get_uid().unwrap();
        assert_eq!(id, a.allocate(10 + i / 4, 1, i % 4));
    }
    assert_eq!(g.get_uid(), Err(GeneratorError::CacheExhausted));
    assert_eq!(g.refill_at(EPOCH + 10), Ok(15));
    assert_eq!(g.get_uid(), Ok(a.allocate(14, 1, 0)));
    let parts = g.parse_uid(a.allocate(14, 1, 3));
    assert_eq!((parts.delta_seconds, parts.worker_id, parts.sequence), (14, 1, 3));
}

#[test]
fn refill_on_full_cache_adds_nothing() {
    let mut g = CacheUidGenerator::<4>::init(build(3), 50).unwrap();
    assert_eq!(g.refill_at(EPOCH + 1), Ok(3));
    assert_eq!(g.refill_at(EPOCH + 1), Ok(0));
    let a = BitsAllocator::from(29, 31, 3).unwrap();
    assert_eq!(g.get_uid(), Ok(a.allocate(1, 1, 0)));
    assert_eq!(g.refill_at(EPOCH + 1), Ok(1));
    assert_eq!(g.get_uid(), Ok(a.allocate(1, 1, 1)));
    assert_eq!(g.get_uid(), Ok(a.allocate(1, 1, 2)));
    assert_eq!(g.get_uid(), Ok(a.allocate(2, 1, 0)));
}

#[test]
fn refill_stops_when_timestamp_bits_run_out() {
    let b = UidGeneratorBuild::form(Some(1), Some(31), Some(31), Some(EPOCH));
    let mut g = CacheUidGenerator::<4>::init(b, 50).unwrap();
    assert_eq!(g.refill_at(EPOCH + 2), Err(GeneratorError::TimestampBitsExhausted));
    assert_eq!(g.get_uid(), Err(GeneratorError::CacheExhausted));
}

#[test]
fn cache_configuration_errors() {
    assert_eq!(CacheUidGenerator::<12>::init(build(3), 50).err(), Some(ConfigError::InvalidCapacity));
    assert_eq!(CacheUidGenerator::<8>::init(build(3), 0).err(), Some(ConfigError::InvalidPaddingFactor));
    let bad = UidGeneratorBuild::form(Some(28), Some(28), Some(28), Some(EPOCH));
    assert_eq!(CacheUidGenerator::<8>::init(bad, 50).err(), Some(ConfigError::BitBudgetExceeded));
}

#[test]
fn init_buffer_empties_the_cache() {
    let mut g = CacheUidGenerator::<8>::init(build(3), 50).unwrap();
    assert_eq!(g.refill_at(EPOCH + 5), Ok(7));
    assert_eq!(g.init_buffer(), Ok(()));
    assert_eq!(g.get_uid(), Err(GeneratorError::CacheExhausted));
    assert_eq!(g.refill_at(EPOCH + 5), Ok(7));
    let a = BitsAllocator::from(29, 31, 3).unwrap();
    assert_eq!(g.get_uid(), Ok(a.allocate(6, 1, 0)));
}

#[test]
fn cached_take_reports_when_refill_is_due() {
    let mut g = CacheUidGenerator::<8>::init(build(3), 50).unwrap();
    let a = BitsAllocator::from(29, 31, 3).unwrap();
    assert_eq!(g.refill_at(EPOCH + 3), Ok(7));
    assert_eq!(g.get_uid_signalled(), (Ok(a.allocate(3, 1, 0)), false));
    assert_eq!(g.get_uid_signalled(), (Ok(a.allocate(3, 1, 1)), false));
    assert_eq!(g.get_uid_signalled(), (Ok(a.allocate(3, 1, 2)), false));
    assert_eq!(g.get_uid_signalled(), (Ok(a.allocate(3, 1, 3)), true));
}

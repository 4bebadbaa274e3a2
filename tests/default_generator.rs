use chrono::{Local, TimeZone};
use uid_generator::allocator::{BitsAllocator, UidParts};
use uid_generator::default_generator::{
    DefaultUidGenerator, InteriorDefaultUidGenerator, UidGeneratorBuild, EPOCH_SECONDS,
};
use uid_generator::error::{ConfigError, GeneratorError};
use uid_generator::{DisposableWorkerIdAssigner, UidGenerator};

const EPOCH: i64 = 1660665600;

fn generator(time_bits: i32, worker_bits: i32, seq_bits: i32, worker_id: i64) -> InteriorDefaultUidGenerator {
    let build = UidGeneratorBuild::form(Some(time_bits), Some(worker_bits), Some(seq_bits), Some(EPOCH));
    InteriorDefaultUidGenerator::with_worker_id(build, worker_id).unwrap()
}

#[test]
fn uid() -> Result<(), GeneratorError> {
    let date = Local.with_ymd_and_hms(2022, 8, 18, 0, 0, 0).unwrap();
    let epoch_seconds = date.timestamp();
    let build = UidGeneratorBuild::form(Some(29), Some(21), Some(13), Some(epoch_seconds));
    let mut generator = DefaultUidGenerator::from(build).unwrap();

    let first = generator.get_uid()?;
    let second = generator.get_uid()?;
    let third = generator.get_uid()?;
    let fourth = generator.get_uid()?;
    assert!(first < second && second < third && third < fourth);
    Ok(())
}

#[test]
fn clock_reading_reaches_the_identifier() {
    let build = UidGeneratorBuild::form(Some(29), Some(21), Some(13), Some(EPOCH));
    let mut g = DefaultUidGenerator::from(build).unwrap();
    let before = Local::now().timestamp() - EPOCH;
    let id = g.get_uid().unwrap();
    let after = Local::now().timestamp() - EPOCH;
    let parts = g.parse_uid(id);
    assert!(before <= parts.delta_seconds && parts.delta_seconds <= after);
    assert_eq!(parts.worker_id, 1);
    assert_eq!(parts.sequence, 0);
}

#[test]
fn allocate_packs_by_shift_formula() {
    let a = BitsAllocator::from(29, 21, 13).unwrap();
    assert_eq!(a.allocate(100, 5, 0), 1717986959360);
    assert_eq!(a.allocate(100, 5, 3), (100i64 << 34) | (5 << 13) | 3);
    assert_eq!(a.allocate(0, 0, 0), 0);
    assert_eq!(a.max_delta_seconds(), (1 << 29) - 1);
    assert_eq!(a.max_worker_id(), (1 << 21) - 1);
    assert_eq!(a.max_sequence(), 8191);
    assert_eq!((a.timestamp_bits(), a.worker_id_bits(), a.sequence_bits()), (29, 21, 13));
}

#[test]
fn allocate_then_parse_round_trips() {
    for (t, w, s) in [(29, 21, 13), (41, 10, 12), (63, 0, 0), (0, 0, 63), (1, 31, 31)] {
        let a = BitsAllocator::from(t, w, s).unwrap();
        let (d, wid, seq) = (a.max_delta_seconds(), a.max_worker_id(), a.max_sequence());
        let id = a.allocate(d, wid, seq);
        assert_eq!(a.parse_uid(id), UidParts { delta_seconds: d, worker_id: wid, sequence: seq });
        let id = a.allocate(d / 3, wid / 2, seq / 5);
        assert_eq!(a.parse_uid(id), UidParts { delta_seconds: d / 3, worker_id: wid / 2, sequence: seq / 5 });
    }
    let a = BitsAllocator::from(29, 21, 13).unwrap();
    assert_eq!(a.parse_uid(1717986959363), UidParts { delta_seconds: 100, worker_id: 5, sequence: 3 });
}

#[test]
fn bit_budget_must_fill_64_bits() {
    assert_eq!(BitsAllocator::from(28, 28, 28).err(), Some(ConfigError::BitBudgetExceeded));
    assert_eq!(BitsAllocator::from(29, 21, 12).err(), Some(ConfigError::BitBudgetExceeded));
    assert_eq!(BitsAllocator::from(-1, 32, 32).err(), Some(ConfigError::BitBudgetExceeded));
}

#[test]
fn four_calls_in_one_second() {
    let mut g = generator(29, 21, 13, 5);
    let a = BitsAllocator::from(29, 21, 13).unwrap();
    let now = EPOCH + 100;
    assert_eq!(g.next_id_at(now), Ok(a.allocate(100, 5, 0)));
    assert_eq!(g.next_id_at(now), Ok(a.allocate(100, 5, 1)));
    assert_eq!(g.next_id_at(now), Ok(a.allocate(100, 5, 2)));
    assert_eq!(g.next_id_at(now), Ok(a.allocate(100, 5, 3)));
    assert_eq!(a.allocate(100, 5, 3), 1717986959363);
}

#[test]
fn sequence_runs_out_then_waits_for_next_second() {
    let mut g = generator(29, 31, 3, 7);
    let now = EPOCH + 50;
    let mut previous = -1;
    for expected in 0..8 {
        let id = g.next_id_at(now).unwrap();
        let parts = g.parse_uid(id);
        assert_eq!(parts, UidParts { delta_seconds: 50, worker_id: 7, sequence: expected });
        assert!(id > previous);
        previous = id;
    }
    assert_eq!(g.next_id_at(now), Err(GeneratorError::SequenceExhausted));
    assert_eq!(g.next_id_at(now), Err(GeneratorError::SequenceExhausted));
    let id = g.next_id_at(now + 1).unwrap();
    assert_eq!(g.parse_uid(id), UidParts { delta_seconds: 51, worker_id: 7, sequence: 0 });
    assert!(id > previous);
}

#[test]
fn clock_moving_back_is_reported() {
    let mut g = generator(29, 21, 13, 5);
    let a = BitsAllocator::from(29, 21, 13).unwrap();
    assert_eq!(g.next_id_at(EPOCH + 100), Ok(a.allocate(100, 5, 0)));
    assert_eq!(g.next_id_at(EPOCH + 99), Err(GeneratorError::ClockMovedBackwards { seconds: 1 }));
    assert_eq!(g.next_id_at(EPOCH + 90), Err(GeneratorError::ClockMovedBackwards { seconds: 10 }));
    assert_eq!(g.next_id_at(EPOCH + 100), Ok(a.allocate(100, 5, 1)));
}

#[test]
fn timestamp_bits_run_out() {
    let mut g = generator(2, 30, 31, 0);
    assert!(g.next_id_at(EPOCH + 3).is_ok());
    assert_eq!(g.next_id_at(EPOCH + 4), Err(GeneratorError::TimestampBitsExhausted));
}

#[test]
fn clock_before_epoch_is_refused() {
    let mut g = generator(29, 21, 13, 5);
    assert_eq!(g.next_id_at(EPOCH - 1), Err(GeneratorError::ClockBeforeEpoch));
    assert_eq!(g.next_id_at(i64::MIN), Err(GeneratorError::ClockBeforeEpoch));
    assert_eq!(g.next_id_at(i64::MAX), Err(GeneratorError::TimestampBitsExhausted));
}

#[test]
fn worker_id_must_fit() {
    let build = UidGeneratorBuild::form(Some(29), Some(2), Some(32), Some(EPOCH));
    assert!(InteriorDefaultUidGenerator::with_worker_id(build, 3).is_ok());
    assert_eq!(InteriorDefaultUidGenerator::with_worker_id(build, 4).err(), Some(ConfigError::WorkerIdExceeded));
    assert_eq!(InteriorDefaultUidGenerator::with_worker_id(build, -1).err(), Some(ConfigError::WorkerIdExceeded));
    let no_worker_bits = UidGeneratorBuild::form(Some(31), Some(0), Some(32), Some(EPOCH));
    assert_eq!(DefaultUidGenerator::from(no_worker_bits).err(), Some(ConfigError::WorkerIdExceeded));
    assert_eq!(DisposableWorkerIdAssigner::new().assign_worker_id(), 1);
}

#[test]
fn unset_widths_take_defaults_that_do_not_fill_64_bits() {
    let build = UidGeneratorBuild::form(None, None, None, None);
    assert_eq!(InteriorDefaultUidGenerator::from(build).err(), Some(ConfigError::BitBudgetExceeded));
    assert_eq!(build.resolve(), (28, 28, 28, EPOCH_SECONDS));
    let only_time = UidGeneratorBuild::form(Some(7), None, None, None);
    let mut g = InteriorDefaultUidGenerator::from(only_time).unwrap();
    let id = g.next_id_at(EPOCH_SECONDS + 7).unwrap();
    assert_eq!(g.parse_uid(id), UidParts { delta_seconds: 7, worker_id: 1, sequence: 0 });
    assert_eq!(id, (7i64 << 56) | (1 << 28));
}

#[test]
fn clock_before_epoch_after_issuing_is_a_step_back() {
    let mut g = generator(29, 21, 13, 5);
    assert!(g.next_id_at(EPOCH + 100).is_ok());
    assert_eq!(g.next_id_at(EPOCH - 1), Err(GeneratorError::ClockMovedBackwards { seconds: 101 }));
    assert_eq!(g.next_id_at(i64::MIN), Err(GeneratorError::ClockBeforeEpoch));
    let a = BitsAllocator::from(29, 21, 13).unwrap();
    assert_eq!(g.next_id_at(EPOCH + 100), Ok(a.allocate(100, 5, 1)));
}

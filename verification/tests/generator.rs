use std::collections::HashSet;

use snowflake::clock::reading_of_millis;
use snowflake::generator::later_reading;
use snowflake::error::{
    CLOCK_MOVED_BACKWARDS, CLOCK_OUT_OF_RANGE, CLOCK_STALLED, ID_OUT_OF_RANGE,
};
use snowflake::layout::{
    DATACENTER_ID_SHIFT, EPOCH, MAX_DATACENTER_ID, MAX_ELAPSED, MAX_SEQUENCE, MAX_WORKER_ID,
    TIMESTAMP_SHIFT, WORKER_ID_SHIFT,
};
use snowflake::{Snowflake, Tick};

fn issued(tick: Tick) -> u64 {
    match tick {
        Tick::Issued(id) => id,
        other => panic!("no identifier was issued: {:?}", other),
    }
}

#[test]
fn test_new_with_valid_ids() {
    assert!(Snowflake::new(0, 0).is_ok());
    assert!(Snowflake::new(MAX_WORKER_ID, MAX_DATACENTER_ID).is_ok());
}

#[test]
fn test_new_with_invalid_ids() {
    assert!(Snowflake::new(MAX_WORKER_ID + 1, 0).is_err());
    assert!(Snowflake::new(0, MAX_DATACENTER_ID + 1).is_err());
}

#[test]
fn test_next_id_uniqueness() {
    let mut snowflake = Snowflake::new(1, 1).unwrap();
    let mut ids = HashSet::new();
    let num_ids: usize = 10000;

    for _ in 0..num_ids {
        let id: u64 = snowflake.next_id().unwrap();
        assert!(ids.insert(id), "生成了重复的 ID: {}", id);
    }
    assert_eq!(ids.len(), num_ids);
}

#[test]
fn test_id_structure() {
    let worker_id: u64 = 5;
    let datacenter_id: u64 = 10;
    let mut snowflake = Snowflake::new(worker_id, datacenter_id).unwrap();
    let id: u64 = snowflake.next_id().unwrap();

    let decoded_worker_id: u64 = (id >> WORKER_ID_SHIFT) & MAX_WORKER_ID;
    let decoded_datacenter_id: u64 = (id >> DATACENTER_ID_SHIFT) & MAX_DATACENTER_ID;
    let decoded_timestamp: u64 = (id >> TIMESTAMP_SHIFT) + EPOCH;

    assert_eq!(decoded_worker_id, worker_id);
    assert_eq!(decoded_datacenter_id, datacenter_id);

    let current_ts: u64 = Snowflake::current_timestamp().unwrap();
    assert!(decoded_timestamp <= current_ts && current_ts - decoded_timestamp < 50);
}

#[test]
fn layout_constants_have_their_documented_values() {
    assert_eq!(EPOCH, 1609459200000);
    assert_eq!(MAX_WORKER_ID, (1 << 5) - 1);
    assert_eq!(MAX_DATACENTER_ID, (1 << 5) - 1);
    assert_eq!(MAX_SEQUENCE, (1 << 12) - 1);
    assert_eq!(MAX_ELAPSED, (1 << 41) - 1);
    assert_eq!(WORKER_ID_SHIFT, 12);
    assert_eq!(DATACENTER_ID_SHIFT, 12 + 5);
    assert_eq!(TIMESTAMP_SHIFT, 12 + 5 + 5);
}

#[test]
fn new_accepts_exactly_the_pairs_up_to_31() {
    for worker_id in 0..=40u64 {
        for datacenter_id in 0..=40u64 {
            let made = Snowflake::new(worker_id, datacenter_id);
            assert_eq!(made.is_ok(), worker_id <= 31 && datacenter_id <= 31);
        }
    }
    assert!(Snowflake::new(u64::MAX, 0).is_err());
    assert!(Snowflake::new(0, u64::MAX).is_err());
}

#[test]
fn new_names_the_out_of_range_error() {
    assert_eq!(Snowflake::new(32, 0).err(), Some("Worker ID or Datacenter ID is out of range"));
    assert_eq!(Snowflake::new(0, 32).err(), Some(ID_OUT_OF_RANGE));
    assert_eq!(Snowflake::new(32, 32).err(), Some(ID_OUT_OF_RANGE));
}

#[test]
fn error_messages_are_four_different_texts() {
    let messages = vec![ID_OUT_OF_RANGE, CLOCK_MOVED_BACKWARDS, CLOCK_OUT_OF_RANGE, CLOCK_STALLED];
    let distinct: HashSet<&str> = messages.iter().copied().collect();
    assert_eq!(distinct.len(), 4);
    assert_eq!(CLOCK_MOVED_BACKWARDS, "Clock moved backwards. Refusing to generate id.");
}

#[test]
fn milliseconds_become_a_reading_where_they_fit_in_64_bits() {
    assert_eq!(reading_of_millis(0), Some(0));
    assert_eq!(reading_of_millis(1609459200000), Some(EPOCH));
    assert_eq!(reading_of_millis(18446744073709551615), Some(u64::MAX));
    assert_eq!(reading_of_millis(18446744073709551616), None);
    assert_eq!(reading_of_millis(u128::MAX), None);
}

#[test]
fn later_reading_ends_the_wait_only_past_the_last_timestamp() {
    assert_eq!(later_reading(Some(100), 100), None);
    assert_eq!(later_reading(Some(99), 100), None);
    assert_eq!(later_reading(Some(100), 100), None);
    assert_eq!(later_reading(Some(101), 100), Some(101));
    assert_eq!(later_reading(None, 100), None);
    assert_eq!(later_reading(Some(0), 0), None);
    assert_eq!(later_reading(Some(1), 0), Some(1));
    assert_eq!(later_reading(Some(u64::MAX), u64::MAX), None);
    assert_eq!(later_reading(Some(u64::MAX), u64::MAX - 1), Some(u64::MAX));
}

#[test]
fn a_wait_returns_the_first_reading_past_the_last_timestamp() {
    let readings: Vec<Option<u64>> = vec![Some(100), Some(99), Some(100), Some(101), Some(105)];
    let mut taken: usize = 0;
    let mut result: Option<u64> = None;
    for reading in readings {
        taken += 1;
        result = later_reading(reading, 100);
        if result.is_some() {
            break;
        }
    }
    assert_eq!(result, Some(101));
    assert_eq!(taken, 4);
}

#[test]
fn current_timestamp_reads_a_clock_of_this_century() {
    let reading: u64 = Snowflake::current_timestamp().unwrap();
    assert!(reading > EPOCH);
    assert!(reading < EPOCH + MAX_ELAPSED);
}

#[test]
fn tick_turns_into_the_identifier_or_its_error() {
    assert_eq!(Tick::Issued(4195635200).into_result(), Ok(4195635200));
    assert_eq!(Tick::Issued(0).into_result(), Ok(0));
    assert_eq!(
        Tick::Regressed.into_result(),
        Err("Clock moved backwards. Refusing to generate id."),
    );
    assert_eq!(
        Tick::Unencodable.into_result(),
        Err("Clock is outside the range of the timestamp field. Refusing to generate id."),
    );
    assert_eq!(
        Tick::Exhausted.into_result(),
        Err("Clock did not advance. Refusing to generate id."),
    );
    assert_eq!(Tick::Exhausted.into_result(), Err(CLOCK_STALLED));
    assert_eq!(Tick::Unencodable.into_result(), Err(CLOCK_OUT_OF_RANGE));
}

#[test]
fn next_id_at_packs_the_fields() {
    let mut snowflake = Snowflake::new(5, 10).unwrap();
    assert_eq!(snowflake.next_id_at(EPOCH + 1000), Tick::Issued(4195635200));
    assert_eq!(
        4195635200u64,
        (1000u64 << 22) | (10u64 << 17) | (5u64 << 12),
    );
}

#[test]
fn next_id_at_counts_within_one_millisecond() {
    let mut snowflake = Snowflake::new(5, 10).unwrap();
    assert_eq!(snowflake.next_id_at(EPOCH + 1000), Tick::Issued(4195635200));
    assert_eq!(snowflake.next_id_at(EPOCH + 1000), Tick::Issued(4195635201));
    assert_eq!(snowflake.next_id_at(EPOCH + 1000), Tick::Issued(4195635202));
    assert_eq!(snowflake.next_id_at(EPOCH + 1001), Tick::Issued(4199829504));
    assert_eq!(snowflake.next_id_at(EPOCH + 1001), Tick::Issued(4199829505));
}

#[test]
fn next_id_at_the_epoch_itself_issues_zero() {
    let mut snowflake = Snowflake::new(0, 0).unwrap();
    assert_eq!(snowflake.next_id_at(EPOCH), Tick::Issued(0));
    assert_eq!(snowflake.next_id_at(EPOCH), Tick::Issued(1));
    let mut other = Snowflake::new(1, 1).unwrap();
    assert_eq!(other.next_id_at(EPOCH + 1), Tick::Issued(4329472));
}

#[test]
fn next_id_at_reaches_the_largest_identifier() {
    let mut snowflake = Snowflake::new(31, 31).unwrap();
    let last_millisecond: u64 = EPOCH + MAX_ELAPSED;
    assert_eq!(last_millisecond, 3808482455551);
    let mut id: u64 = 0;
    for _ in 0..4096 {
        id = issued(snowflake.next_id_at(last_millisecond));
    }
    assert_eq!(id, 9223372036854775807);
    assert_eq!(id, i64::MAX as u64);
}

#[test]
fn next_id_at_refuses_what_the_timestamp_field_cannot_hold() {
    let mut snowflake = Snowflake::new(3, 4).unwrap();
    assert_eq!(snowflake.next_id_at(0), Tick::Unencodable);
    assert_eq!(snowflake.next_id_at(1), Tick::Unencodable);
    assert_eq!(snowflake.next_id_at(EPOCH - 1), Tick::Unencodable);
    assert_eq!(snowflake.next_id_at(EPOCH + MAX_ELAPSED + 1), Tick::Unencodable);
    assert_eq!(snowflake.next_id_at(u64::MAX), Tick::Unencodable);
    // None of the refused readings was remembered.
    assert_eq!(
        snowflake.next_id_at(EPOCH),
        Tick::Issued((4u64 << 17) | (3u64 << 12)),
    );
    // A reading past the field is refused after an identifier was issued, too.
    assert_eq!(snowflake.next_id_at(EPOCH + MAX_ELAPSED + 1), Tick::Unencodable);
    assert_eq!(
        snowflake.next_id_at(EPOCH),
        Tick::Issued((4u64 << 17) | (3u64 << 12) | 1),
    );
}

#[test]
fn sequence_rolls_over_after_4096_identifiers() {
    let mut snowflake = Snowflake::new(7, 9).unwrap();
    let now: u64 = EPOCH + 123_456;
    for expected_sequence in 0..4096u64 {
        let id: u64 = issued(snowflake.next_id_at(now));
        assert_eq!(id & MAX_SEQUENCE, expected_sequence);
        assert_eq!((id >> TIMESTAMP_SHIFT) + EPOCH, now);
    }
    // The 4097th reading of the same millisecond has to wait.
    assert_eq!(snowflake.next_id_at(now), Tick::Exhausted);
    assert_eq!(snowflake.next_id_at(now), Tick::Exhausted);
    // The next millisecond starts again at 0.
    let id: u64 = issued(snowflake.next_id_at(now + 1));
    assert_eq!(id & MAX_SEQUENCE, 0);
    assert_eq!((id >> TIMESTAMP_SHIFT) + EPOCH, now + 1);
    assert_eq!(id, (123_457u64 << 22) | (9u64 << 17) | (7u64 << 12));
}

#[test]
fn clock_regression_is_refused_and_forgotten() {
    let mut snowflake = Snowflake::new(2, 3).unwrap();
    let now: u64 = EPOCH + 5000;
    let first: u64 = issued(snowflake.next_id_at(now));
    assert_eq!(snowflake.next_id_at(now - 1), Tick::Regressed);
    assert_eq!(snowflake.next_id_at(EPOCH), Tick::Regressed);
    assert_eq!(snowflake.next_id_at(0), Tick::Regressed);
    // The generator goes on as if the early readings had never been made.
    assert_eq!(snowflake.next_id_at(now), Tick::Issued(first + 1));
    assert_eq!(
        snowflake.next_id_at(now + 1),
        Tick::Issued((5001u64 << 22) | (3u64 << 17) | (2u64 << 12)),
    );
}

#[test]
fn identifiers_increase_whatever_the_clock_reads() {
    let mut snowflake = Snowflake::new(1, 1).unwrap();
    let readings: Vec<u64> = vec![
        EPOCH + 10,
        EPOCH + 10,
        EPOCH + 9,
        EPOCH + 10,
        0,
        EPOCH + 12,
        EPOCH + 11,
        EPOCH + 12,
        u64::MAX,
        EPOCH + 500,
        EPOCH + 500,
    ];
    let mut ids: Vec<u64> = Vec::new();
    for now in readings {
        if let Tick::Issued(id) = snowflake.next_id_at(now) {
            ids.push(id);
        }
    }
    assert_eq!(ids.len(), 7);
    for pair in ids.windows(2) {
        assert!(pair[0] < pair[1]);
        let earlier: (u64, u64) = (pair[0] >> TIMESTAMP_SHIFT, pair[0] & MAX_SEQUENCE);
        let later: (u64, u64) = (pair[1] >> TIMESTAMP_SHIFT, pair[1] & MAX_SEQUENCE);
        assert!(earlier < later);
    }
}

#[test]
fn next_id_increases_on_the_system_clock() {
    let mut snowflake = Snowflake::new(1, 1).unwrap();
    let mut last: u64 = snowflake.next_id().unwrap();
    for _ in 0..10000 {
        let id: u64 = snowflake.next_id().unwrap();
        assert!(last < id);
        let earlier: (u64, u64) = (last >> TIMESTAMP_SHIFT, last & MAX_SEQUENCE);
        let later: (u64, u64) = (id >> TIMESTAMP_SHIFT, id & MAX_SEQUENCE);
        assert!(earlier < later);
        assert_eq!(id >> 63, 0);
        last = id;
    }
}

#[test]
fn next_id_waits_out_a_spent_millisecond() {
    let mut snowflake = Snowflake::new(1, 1).unwrap();
    // A millisecond comfortably ahead of the clock, with every sequence number spent.
    let ahead: u64 = Snowflake::current_timestamp().unwrap() + 500;
    for _ in 0..4096 {
        issued(snowflake.next_id_at(ahead));
    }
    assert_eq!(snowflake.next_id_at(ahead), Tick::Exhausted);
    // The clock is still behind that millisecond.
    assert_eq!(snowflake.next_id().err(), Some(CLOCK_MOVED_BACKWARDS));
    // Once the clock has caught up, the generator waits for the millisecond after it.
    while Snowflake::current_timestamp().unwrap() < ahead {}
    let id: u64 = snowflake.next_id().unwrap();
    assert!((id >> TIMESTAMP_SHIFT) + EPOCH > ahead);
    assert_eq!(id & MAX_SEQUENCE, 0);
}

#[test]
fn next_id_fails_while_the_clock_is_behind() {
    let mut snowflake = Snowflake::new(4, 2).unwrap();
    let ahead: u64 = Snowflake::current_timestamp().unwrap() + 60_000;
    let first: u64 = issued(snowflake.next_id_at(ahead));
    assert_eq!(snowflake.next_id(), Err("Clock moved backwards. Refusing to generate id."));
    assert_eq!(snowflake.next_id(), Err(CLOCK_MOVED_BACKWARDS));
    // The failures changed nothing.
    assert_eq!(snowflake.next_id_at(ahead), Tick::Issued(first + 1));
}

#[test]
fn generators_for_different_workers_never_collide() {
    let now: u64 = EPOCH + 77;
    let mut seen: HashSet<u64> = HashSet::new();
    for worker_id in 0..=31u64 {
        for datacenter_id in 0..=31u64 {
            let mut snowflake = Snowflake::new(worker_id, datacenter_id).unwrap();
            for _ in 0..3 {
                let id: u64 = issued(snowflake.next_id_at(now));
                assert!(seen.insert(id));
                assert_eq!((id >> WORKER_ID_SHIFT) & MAX_WORKER_ID, worker_id);
                assert_eq!((id >> DATACENTER_ID_SHIFT) & MAX_DATACENTER_ID, datacenter_id);
            }
        }
    }
    assert_eq!(seen.len(), 32 * 32 * 3);
}

use snowflake::error::ID_OUT_OF_RANGE;
use snowflake::layout::{
    DATACENTER_ID_SHIFT, EPOCH, MAX_DATACENTER_ID, MAX_SEQUENCE, MAX_WORKER_ID, TIMESTAMP_SHIFT,
    WORKER_ID_SHIFT,
};
use snowflake::SnowflakeGenerator;

#[test]
fn shared_new_accepts_exactly_the_pairs_up_to_31() {
    assert!(SnowflakeGenerator::new(0, 0).is_ok());
    assert!(SnowflakeGenerator::new(MAX_WORKER_ID, MAX_DATACENTER_ID).is_ok());
    assert_eq!(SnowflakeGenerator::new(MAX_WORKER_ID + 1, 0).err(), Some(ID_OUT_OF_RANGE));
    assert_eq!(SnowflakeGenerator::new(0, MAX_DATACENTER_ID + 1).err(), Some(ID_OUT_OF_RANGE));
}

#[test]
fn shared_identifiers_carry_worker_and_datacenter() {
    let generator = SnowflakeGenerator::new(17, 29).unwrap();
    for _ in 0..100 {
        let id: u64 = generator.next_id().unwrap();
        assert_eq!((id >> WORKER_ID_SHIFT) & MAX_WORKER_ID, 17);
        assert_eq!((id >> DATACENTER_ID_SHIFT) & MAX_DATACENTER_ID, 29);
        assert!((id >> TIMESTAMP_SHIFT) + EPOCH > EPOCH);
        assert_eq!(id >> 63, 0);
    }
}

#[test]
fn shared_identifiers_increase_call_after_call() {
    let generator = SnowflakeGenerator::new(1, 1).unwrap();
    let mut last: u64 = generator.next_id().unwrap();
    for _ in 0..10000 {
        let id: u64 = generator.next_id().unwrap();
        assert!(last < id);
        let earlier: (u64, u64) = (last >> TIMESTAMP_SHIFT, last & MAX_SEQUENCE);
        let later: (u64, u64) = (id >> TIMESTAMP_SHIFT, id & MAX_SEQUENCE);
        assert!(earlier < later);
        last = id;
    }
}

#[test]
fn shared_generator_releases_its_lock_after_each_call() {
    let generator = SnowflakeGenerator::new(2, 2).unwrap();
    let first: u64 = generator.next_id().unwrap();
    let second: u64 = generator.next_id().unwrap();
    let third: u64 = generator.next_id().unwrap();
    assert!(first < second && second < third);
}

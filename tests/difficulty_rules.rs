use shadow_harvester::difficulty::{
    count_leading_zero_bits, difficulty_to_zero_bits, hash_satisfies, hash_structure_good, DifficultyError,
};
use shadow_harvester::search::{prepare_search, NonceLane, SearchError, CANCEL_CHECK_INTERVAL, worker_should_stop};

#[test]
fn common_targets_give_zero_bits() {
    assert_eq!(difficulty_to_zero_bits("00FFFFFF"), Ok(8));
    assert_eq!(difficulty_to_zero_bits("000FFFFF"), Ok(12));
    assert_eq!(difficulty_to_zero_bits("0000FFFF"), Ok(16));
    assert_eq!(difficulty_to_zero_bits("00007FFF"), Ok(17));
    assert_eq!(difficulty_to_zero_bits("00007fff"), Ok(17));
    assert_eq!(difficulty_to_zero_bits("FFFF"), Ok(0));
    assert_eq!(difficulty_to_zero_bits("0000"), Ok(16));
}

#[test]
fn bad_targets_are_errors() {
    assert_eq!(difficulty_to_zero_bits(""), Err(DifficultyError::Empty));
    assert_eq!(difficulty_to_zero_bits("000"), Err(DifficultyError::Malformed));
    assert_eq!(difficulty_to_zero_bits("0G"), Err(DifficultyError::Malformed));
    assert_eq!(difficulty_to_zero_bits("zz"), Err(DifficultyError::Malformed));
}

#[test]
fn hash_structure_examples() {
    assert!(hash_structure_good(&[0x00, 0x00, 0x00, 0xFF], 24));
    assert!(hash_structure_good(&[0x00, 0x00, 0x7F, 0xFF], 17));
    assert!(hash_structure_good(&[0x00, 0x00, 0x00, 0x7F], 25));
    assert!(!hash_structure_good(&[0x00, 0x00, 0x00, 0x7F], 26));
    assert!(!hash_structure_good(&[0x00, 0x00, 0x7F, 0xFF], 18));
    assert!(!hash_structure_good(&[0x00, 0x01], 16));
    assert!(hash_structure_good(&[], 0));
    assert!(!hash_structure_good(&[], 1));
    assert!(!hash_structure_good(&[0x00], 9));
    assert!(hash_structure_good(&[0x00], 8));
}

#[test]
fn hash_satisfies_targets() {
    let h = [0x00, 0x00, 0x00, 0xFF];
    assert_eq!(hash_satisfies(&h, "00FFFFFF"), Ok(true));
    assert_eq!(hash_satisfies(&h, "0000FFFF"), Ok(true));
    assert_eq!(hash_satisfies(&h, "00007FFF"), Ok(true));
    assert_eq!(hash_satisfies(&[0x00, 0x00, 0x00, 0x7F], "0000007F"), Ok(true));
    assert_eq!(hash_satisfies(&[0x00, 0x00, 0x00, 0x7F], "0000003F"), Ok(false));
    assert_eq!(hash_satisfies(&h, ""), Err(DifficultyError::Empty));
    assert_eq!(hash_satisfies(&h, "0x00"), Err(DifficultyError::Malformed));
}

#[test]
fn leading_zero_bit_counts() {
    assert_eq!(count_leading_zero_bits(&[]), 0);
    assert_eq!(count_leading_zero_bits(&[0x80]), 0);
    assert_eq!(count_leading_zero_bits(&[0x01]), 7);
    assert_eq!(count_leading_zero_bits(&[0x00, 0x00]), 16);
    assert_eq!(count_leading_zero_bits(&[0x00, 0x10, 0x00]), 11);
}

#[test]
fn search_configuration_checks() {
    assert_eq!(prepare_search(0, "00FF"), Err(SearchError::ZeroThreads));
    assert_eq!(prepare_search(4, ""), Err(SearchError::EmptyTarget));
    assert_eq!(prepare_search(4, "0F0"), Err(SearchError::MalformedTarget));
    assert_eq!(prepare_search(4, "000FFFFF"), Ok(12));
}

#[test]
fn lanes_interleave_nonces() {
    let mut a = NonceLane::new(100, 0, 3);
    let mut b = NonceLane::new(100, 2, 3);
    assert_eq!(a.next_nonce(), Some(100));
    assert_eq!(a.next_nonce(), Some(103));
    assert_eq!(b.next_nonce(), Some(102));
    assert_eq!(b.next_nonce(), Some(105));
    assert_eq!(a.hashes(), 2);
    let mut top = NonceLane::new(u64::MAX - 1, 1, 2);
    assert_eq!(top.next_nonce(), Some(u64::MAX));
    assert_eq!(top.next_nonce(), None);
}

#[test]
fn preset_cancellation_stops_before_first_hash() {
    let mut lane = NonceLane::new(0, 0, 1);
    assert!(lane.polls_now());
    assert!(worker_should_stop(&lane, true, false));
    assert!(!worker_should_stop(&lane, false, false));
    lane.next_nonce();
    assert!(!lane.polls_now());
    assert!(!worker_should_stop(&lane, true, false));
    for _ in 1..CANCEL_CHECK_INTERVAL {
        lane.next_nonce();
    }
    assert!(lane.polls_now());
    assert!(worker_should_stop(&lane, false, true));
}

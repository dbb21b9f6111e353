use shadow_harvester::backoff::Backoff;
use shadow_harvester::outcome::MiningResult;
use shadow_harvester::pool::{PoolError, PoolRound, WalletStatus, RoundSummary};

#[test]
fn backoff_doubles_up_to_cap_and_resets() {
    let mut b = Backoff::new(5, 300, 2);
    let delays: Vec<u64> = (0..8).map(|_| b.next_delay()).collect();
    assert_eq!(delays, vec![5, 10, 20, 40, 80, 160, 300, 300]);
    assert_eq!(b.attempts(), 8);
    b.reset();
    assert_eq!(b.attempts(), 0);
    assert_eq!(b.next_delay(), 5);
    let mut c = Backoff::new(500, 300, 2);
    assert_eq!(c.next_delay(), 300);
    let mut flat = Backoff::new(7, 100, 1);
    assert_eq!(flat.next_delay(), 7);
    assert_eq!(flat.next_delay(), 7);
}

#[test]
fn pool_keeps_two_of_five_busy() {
    let (mut round, first) = PoolRound::start(5, 2).unwrap();
    assert_eq!(first, vec![0, 1]);
    assert_eq!(round.active(), 2);
    assert_eq!(round.on_result(0, MiningResult::FoundAndQueued), Some(2));
    assert_eq!(round.active(), 2);
    assert_eq!(round.on_result(2, MiningResult::MiningFailed), Some(3));
    assert_eq!(round.active(), 2);
    assert_eq!(round.on_result(1, MiningResult::AlreadySolved), Some(4));
    assert_eq!(round.active(), 2);
    assert_eq!(round.on_result(4, MiningResult::FoundAndQueued), None);
    assert_eq!(round.active(), 1);
    assert!(!round.is_finished());
    assert_eq!(round.on_result(3, MiningResult::FoundAndQueued), None);
    assert_eq!(round.active(), 0);
    assert_eq!(round.completed(), 5);
    assert!(round.is_finished());
    assert_eq!(
        round.statuses().clone(),
        vec![WalletStatus::Solved, WalletStatus::Skipped, WalletStatus::Failed, WalletStatus::Solved, WalletStatus::Solved]
    );
    assert_eq!(round.close(), RoundSummary { cancelled: false, solved: 3, skipped: 1, failed: 1 });
}

#[test]
fn pool_ignores_unknown_results() {
    let (mut round, _) = PoolRound::start(3, 1).unwrap();
    assert_eq!(round.on_result(2, MiningResult::FoundAndQueued), None);
    assert_eq!(round.on_result(9, MiningResult::FoundAndQueued), None);
    assert_eq!(round.completed(), 0);
    assert_eq!(round.on_result(0, MiningResult::FoundAndQueued), Some(1));
    assert_eq!(round.on_result(0, MiningResult::FoundAndQueued), None);
    assert_eq!(round.completed(), 1);
}

#[test]
fn pool_rejects_empty_roster_and_zero_limit() {
    assert_eq!(PoolRound::start(0, 2).err(), Some(PoolError::EmptyRoster));
    assert_eq!(PoolRound::start(3, 0).err(), Some(PoolError::ZeroConcurrency));
    let (round, first) = PoolRound::start(2, 8).unwrap();
    assert_eq!(first, vec![0, 1]);
    assert_eq!(round.active(), 2);
}

#[test]
fn pool_rotation_drains_every_worker() {
    let (mut round, _) = PoolRound::start(5, 2).unwrap();
    assert_eq!(round.on_result(0, MiningResult::FoundAndQueued), Some(2));
    let stop = round.cancel();
    assert_eq!(stop, vec![1, 2]);
    assert!(round.is_cancelled());
    assert_eq!(round.on_result(1, MiningResult::MiningFailed), None);
    assert_eq!(round.active(), 1);
    assert!(!round.is_finished());
    let join = round.abandon_remaining();
    assert_eq!(join, vec![2]);
    assert!(round.is_finished());
    assert_eq!(round.statuses()[3], WalletStatus::Waiting);
    let summary = round.close();
    assert!(summary.cancelled);
    assert_eq!(summary.solved, 1);
    assert_eq!(summary.failed, 2);
}

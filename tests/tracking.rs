use shadow_harvester::challenge::{is_rotation, wait_for_next_round, ChallengeInfo, ChallengePoll, ChallengeSource, ChallengeStep, RoundWait};
use shadow_harvester::mode::{pause_seconds, refreshes_stats, select_mode, Mode, ModeError, ModeFlags, Pause};
use shadow_harvester::outcome::MiningResult;
use shadow_harvester::pool::WalletStatus;
use shadow_harvester::roster::{
    classify_donation, plan_generation, short_address, wallet_name, DonationOutcome, DonationTally, GenerationPlan, RosterError,
};
use shadow_harvester::sequence::{next_index_after_receipts, IndexCursor};
use shadow_harvester::stats::{countdown_from, next_challenge_countdown, reward_per_solution, status_counts, total_solved, NextChallenge};
use shadow_harvester::text::{contains_text, is_network_failure, is_repeat_registration};

fn info(id: &str) -> ChallengeInfo {
    ChallengeInfo {
        challenge_id: id.to_string(),
        day: 3,
        latest_submission: "2025-11-01T00:00:00Z".to_string(),
        difficulty: "000FFFFF".to_string(),
    }
}

#[test]
fn source_reuses_last_challenge_on_network_failure() {
    let mut src = ChallengeSource::new(None);
    match src.observe(ChallengePoll::Failure("API request failed: timeout".to_string())) {
        ChallengeStep::Wait => {}
        _ => panic!("nothing to fall back on yet"),
    }
    match src.observe(ChallengePoll::Active(info("C1"))) {
        ChallengeStep::Mine { challenge, rotated } => {
            assert_eq!(challenge.challenge_id, "C1");
            assert!(!rotated);
        }
        _ => panic!("expected a challenge"),
    }
    match src.observe(ChallengePoll::Failure("API request failed: connection reset".to_string())) {
        ChallengeStep::Reuse(c) => assert_eq!(c.challenge_id, "C1"),
        _ => panic!("expected reuse"),
    }
    match src.observe(ChallengePoll::Failure("HTTP 500: internal".to_string())) {
        ChallengeStep::Wait => {}
        _ => panic!("expected wait"),
    }
    match src.observe(ChallengePoll::NoneActive) {
        ChallengeStep::PollAgain => {}
        _ => panic!("expected poll again"),
    }
    match src.observe(ChallengePoll::Active(info("C2"))) {
        ChallengeStep::Mine { rotated, .. } => assert!(rotated),
        _ => panic!("expected a challenge"),
    }
    assert_eq!(src.last_id(), Some(&"C2".to_string()));
}

#[test]
fn pinned_source_never_rotates() {
    let mut src = ChallengeSource::new(Some("C1".to_string()));
    src.observe(ChallengePoll::Active(info("C1")));
    match src.observe(ChallengePoll::Active(info("C9"))) {
        ChallengeStep::Mine { rotated, .. } => assert!(!rotated),
        _ => panic!("expected a challenge"),
    }
    assert!(src.after_failed_search(&ChallengePoll::NoneActive));
}

#[test]
fn failed_search_rechecks_the_challenge() {
    let mut src = ChallengeSource::new(None);
    src.observe(ChallengePoll::Active(info("C1")));
    assert!(src.after_failed_search(&ChallengePoll::Active(info("C1"))));
    assert!(!src.after_failed_search(&ChallengePoll::Active(info("C2"))));
    assert!(!src.after_failed_search(&ChallengePoll::Failure("x".to_string())));
}

#[test]
fn rotation_and_round_waiting() {
    let round = "C1".to_string();
    assert!(is_rotation(&round, &ChallengePoll::Active(info("C2"))));
    assert!(!is_rotation(&round, &ChallengePoll::Active(info("C1"))));
    assert!(!is_rotation(&round, &ChallengePoll::NoneActive));
    assert_eq!(wait_for_next_round(1, &round, &ChallengePoll::Active(info("C2"))), RoundWait::Start);
    assert_eq!(wait_for_next_round(1, &round, &ChallengePoll::Active(info("C1"))), RoundWait::Keep);
    assert_eq!(wait_for_next_round(60, &round, &ChallengePoll::NoneActive), RoundWait::GiveUp);
}

#[test]
fn sequential_indices() {
    assert_eq!(next_index_after_receipts(&vec![]), 0);
    assert_eq!(next_index_after_receipts(&vec![0, 4, 2]), 5);
    assert_eq!(next_index_after_receipts(&vec![u32::MAX]), 0);
    let mut cur = IndexCursor::new(3);
    assert!(cur.needs_rescan(&"C1".to_string(), false));
    cur.begin_challenge("C1".to_string(), false, &vec![0, 1]);
    assert_eq!(cur.index(), 3);
    cur.after_result(MiningResult::FoundAndQueued);
    assert_eq!(cur.index(), 4);
    cur.after_result(MiningResult::MiningFailed);
    assert_eq!(cur.index(), 4);
    cur.begin_challenge("C1".to_string(), false, &vec![]);
    assert_eq!(cur.index(), 4);
    cur.begin_challenge("C2".to_string(), false, &vec![7, 9]);
    assert_eq!(cur.index(), 10);
    assert!(cur.needs_registration());
    cur.mark_registered();
    assert!(!cur.needs_registration());
    cur.skip();
    assert!(cur.needs_registration());
    assert!(cur.recovery_applies());
}

#[test]
fn dashboard_data() {
    let s = vec![WalletStatus::Solved, WalletStatus::Mining, WalletStatus::Waiting, WalletStatus::Solved, WalletStatus::Failed];
    let c = status_counts(&s);
    assert_eq!((c.total, c.solved, c.mining, c.waiting, c.failed, c.skipped), (5, 2, 1, 1, 1, 0));
    assert_eq!(total_solved(&vec![3, 4, u32::MAX]), 7 + u32::MAX as u128);
    let rates = vec![1_000_000, 2_000_000, 3_000_000];
    assert_eq!(reward_per_solution(&rates, 2, 4), Some(500_000));
    assert_eq!(reward_per_solution(&rates, 0, 4), Some(250_000));
    assert_eq!(reward_per_solution(&rates, 4, 4), None);
    assert_eq!(reward_per_solution(&rates, 1, 0), None);
    assert_eq!(countdown_from(Some(1_000), 850), NextChallenge::In { minutes: 2, seconds: 30 });
    assert_eq!(countdown_from(Some(1_000), 1_000), NextChallenge::Now);
    assert_eq!(next_challenge_countdown(&None, 0), NextChallenge::NotAnnounced);
    assert_eq!(next_challenge_countdown(&Some("not a date".to_string()), 0), NextChallenge::Unreadable);
    assert_eq!(
        next_challenge_countdown(&Some("2025-01-01T00:10:30Z".to_string()), 1_735_689_600),
        NextChallenge::In { minutes: 10, seconds: 30 }
    );
    assert_eq!(
        next_challenge_countdown(&Some("2025-01-01T01:00:00+01:00".to_string()), 1_735_689_600),
        NextChallenge::Now
    );
}

#[test]
fn roster_generation_plans() {
    assert_eq!(plan_generation(&vec![], 0), Err(RosterError::ZeroCount));
    assert_eq!(plan_generation(&vec![], 1001), Err(RosterError::TooMany));
    assert_eq!(plan_generation(&vec![], 3), Ok(GenerationPlan { first_id: 1, count: 3 }));
    assert_eq!(plan_generation(&vec![2, 9, 4], 1000), Ok(GenerationPlan { first_id: 10, count: 1000 }));
    assert_eq!(plan_generation(&vec![u32::MAX - 1], 2), Err(RosterError::IdsExhausted));
    assert_eq!(wallet_name(12), "Wallet 12");
    assert_eq!(short_address("addr1qxyz0123456789abcdefgh"), "addr1qxyz0...abcdefgh");
    assert_eq!(short_address("addr1short"), "addr1short");
}

#[test]
fn donation_outcomes() {
    let mut t = DonationTally::new();
    t.record(classify_donation(&Ok("d-1".to_string())));
    t.record(classify_donation(&Err("HTTP 409 Conflict".to_string())));
    t.record(classify_donation(&Err("donation already exists".to_string())));
    t.record(classify_donation(&Err("HTTP 500".to_string())));
    assert_eq!((t.donated, t.already, t.failed), (1, 2, 1));
    assert!(!t.all_configured());
    assert_eq!(classify_donation(&Err("timeout".to_string())), DonationOutcome::Failed);
}

#[test]
fn message_classification() {
    assert!(contains_text("abc", ""));
    assert!(contains_text("hello world", "o w"));
    assert!(!contains_text("hello", "hello!"));
    assert!(is_network_failure("API request failed: dns"));
    assert!(!is_network_failure("API rejected"));
    assert!(is_repeat_registration("HTTP 400 Bad Request"));
    assert!(!is_repeat_registration("HTTP 500"));
}

#[test]
fn mode_selection() {
    let none = ModeFlags {
        generate_wallets: None,
        donate_all: false,
        api_url: false,
        wallets_file: false,
        payment_key: false,
        mnemonic: false,
        ephemeral_key: false,
        challenge: false,
    };
    assert_eq!(select_mode(&none), Ok(Mode::InfoOnly));
    assert_eq!(select_mode(&ModeFlags { generate_wallets: Some(5), ..none }), Ok(Mode::GenerateWallets(5)));
    assert_eq!(select_mode(&ModeFlags { donate_all: true, ..none }), Err(ModeError::MissingApiUrl));
    assert_eq!(select_mode(&ModeFlags { donate_all: true, api_url: true, ..none }), Ok(Mode::DonateAll));
    assert_eq!(select_mode(&ModeFlags { wallets_file: true, payment_key: true, ..none }), Ok(Mode::WalletPool));
    assert_eq!(select_mode(&ModeFlags { payment_key: true, mnemonic: true, ..none }), Ok(Mode::PersistentKey));
    assert_eq!(select_mode(&ModeFlags { mnemonic: true, ephemeral_key: true, ..none }), Ok(Mode::Mnemonic));
    assert_eq!(select_mode(&ModeFlags { ephemeral_key: true, ..none }), Ok(Mode::Ephemeral));
    assert_eq!(select_mode(&ModeFlags { challenge: true, ..none }), Ok(Mode::Idle));
    assert_eq!(pause_seconds(Mode::Ephemeral, Pause::PollFailed), Some(300));
    assert_eq!(pause_seconds(Mode::Mnemonic, Pause::PollFailed), None);
    assert_eq!(pause_seconds(Mode::PersistentKey, Pause::SearchFailed), Some(60));
    assert_eq!(pause_seconds(Mode::WalletPool, Pause::NoChallenge), Some(30));
    assert!(refreshes_stats(0));
    assert!(!refreshes_stats(14));
    assert!(refreshes_stats(30));
}

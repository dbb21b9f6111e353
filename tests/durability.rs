use shadow_harvester::attempt::{mining_result, Attempt, AttemptAction, AttemptEnd};
use shadow_harvester::backoff::Backoff;
use shadow_harvester::layout::{alternate_receipt, decimal_text, safe_component, Locator, PathError, StateFile};
use shadow_harvester::outcome::MiningResult;
use shadow_harvester::queue::{classify_submission, queue_entry_name, settles_entry, DrainPass, SubmitOutcome};

fn run(durable: bool, alternate: bool, answers: &[bool]) -> Vec<AttemptAction> {
    let (mut a, first) = Attempt::start(durable, alternate);
    let mut seen = vec![first];
    for &yes in answers {
        seen.push(a.answer(yes));
    }
    seen
}

#[test]
fn queued_pair_is_already_solved_without_search() {
    let seen = run(true, false, &[false, true]);
    assert_eq!(
        seen,
        vec![AttemptAction::ProbeMarker, AttemptAction::ProbeQueue, AttemptAction::Finish(AttemptEnd::AlreadySolved)]
    );
    assert!(!seen.contains(&AttemptAction::Search));
}

#[test]
fn receipt_or_alternate_receipt_skips_search() {
    let seen = run(true, false, &[false, false, true]);
    assert_eq!(seen.last(), Some(&AttemptAction::Finish(AttemptEnd::AlreadySolved)));
    let seen = run(true, true, &[false, false, false, true]);
    assert_eq!(seen[3], AttemptAction::ProbeAlternateReceipt);
    assert_eq!(seen.last(), Some(&AttemptAction::Finish(AttemptEnd::AlreadySolved)));
    assert!(!seen.contains(&AttemptAction::Search));
}

#[test]
fn orphaned_marker_is_recovered_once() {
    let seen = run(true, false, &[true, true, false, true]);
    assert_eq!(
        seen,
        vec![
            AttemptAction::ProbeMarker,
            AttemptAction::EnqueueRecovered,
            AttemptAction::DeleteRecoveredMarker,
            AttemptAction::ProbeQueue,
            AttemptAction::Finish(AttemptEnd::AlreadySolved),
        ]
    );
    let failed = run(true, false, &[true, false]);
    assert_eq!(failed.last(), Some(&AttemptAction::Finish(AttemptEnd::RecoveryFailed)));
    assert_eq!(mining_result(AttemptEnd::RecoveryFailed), MiningResult::MiningFailed);
}

#[test]
fn found_solution_is_queued_before_success() {
    let seen = run(true, false, &[false, false, false, true, true, true, false]);
    assert_eq!(
        seen,
        vec![
            AttemptAction::ProbeMarker,
            AttemptAction::ProbeQueue,
            AttemptAction::ProbeReceipt,
            AttemptAction::Search,
            AttemptAction::WriteMarker,
            AttemptAction::EnqueueFound,
            AttemptAction::DeleteFoundMarker,
            AttemptAction::Finish(AttemptEnd::Solved),
        ]
    );
    let unqueued = run(true, false, &[false, false, false, true, true, false]);
    assert_eq!(unqueued.last(), Some(&AttemptAction::Finish(AttemptEnd::Failed)));
    assert_eq!(mining_result(AttemptEnd::Solved), MiningResult::FoundAndQueued);
}

#[test]
fn attempt_without_storage_submits_directly() {
    let seen = run(false, false, &[true, true]);
    assert_eq!(
        seen,
        vec![AttemptAction::Search, AttemptAction::SubmitFound, AttemptAction::Finish(AttemptEnd::Solved)]
    );
    let none = run(false, false, &[false]);
    assert_eq!(none.last(), Some(&AttemptAction::Finish(AttemptEnd::Failed)));
}

#[test]
fn locator_directories() {
    let c = "D07C10".to_string();
    let p = Locator::Persistent { address: "addr_test1xyz".to_string() };
    assert_eq!(p.identity_dir(&c), Ok(vec!["D07C10".to_string(), "persistent".to_string(), "addr_test1xyz".to_string()]));
    let m = Locator::Mnemonic { seed_id: "seed9".to_string(), account: 0, index: 1207 };
    assert_eq!(
        m.state_file(&c, StateFile::Receipt),
        Ok(vec!["D07C10", "mnemonic", "seed9", "0", "1207", "receipt.json"].into_iter().map(String::from).collect())
    );
    assert!(m.has_alternate_receipt());
    let e = Locator::Ephemeral { address: "addr1".to_string() };
    assert_eq!(
        e.state_file(&c, StateFile::RecoveryMarker).unwrap().last().unwrap(),
        "found.json"
    );
    assert!(!e.has_alternate_receipt());
    let bad = Locator::Persistent { address: "../x".to_string() };
    assert_eq!(bad.identity_dir(&c), Err(PathError::UnsafeComponent));
    assert_eq!(p.identity_dir(&"..".to_string()), Err(PathError::UnsafeComponent));
    assert_eq!(
        alternate_receipt(&c, &"addr9".to_string()),
        Ok(vec!["D07C10", "persistent", "addr9", "receipt.json"].into_iter().map(String::from).collect())
    );
}

#[test]
fn path_components_and_decimals() {
    assert!(safe_component("abc_1-2.json"));
    assert!(!safe_component(""));
    assert!(!safe_component("."));
    assert!(!safe_component(".."));
    assert!(safe_component("..."));
    assert!(!safe_component("a/b"));
    assert!(!safe_component("a#b"));
    assert_eq!(decimal_text(0), "0");
    assert_eq!(decimal_text(40960), "40960");
    assert_eq!(decimal_text(u32::MAX), "4294967295");
}

#[test]
fn queue_entries_and_drainer() {
    assert_eq!(
        queue_entry_name(&"addr1".to_string(), &"D01C02".to_string()),
        Ok("addr1#D01C02.json".to_string())
    );
    assert_eq!(
        queue_entry_name(&"a#b".to_string(), &"c".to_string()),
        Err(PathError::UnsafeComponent)
    );
    assert_eq!(classify_submission(&Ok("id-1".to_string())), SubmitOutcome::Accepted);
    assert_eq!(
        classify_submission(&Err("HTTP 409: solution already submitted".to_string())),
        SubmitOutcome::AlreadyAccepted
    );
    assert_eq!(
        classify_submission(&Err("API request failed: timeout".to_string())),
        SubmitOutcome::Retryable
    );
    assert!(settles_entry(SubmitOutcome::AlreadyAccepted));
    assert!(!settles_entry(SubmitOutcome::Retryable));

    let mut backoff = Backoff::new(5, 60, 2);
    let mut pass = DrainPass::new();
    pass.record(SubmitOutcome::Accepted);
    pass.record(SubmitOutcome::Retryable);
    assert_eq!((pass.settled, pass.kept), (1, 1));
    assert_eq!(pass.finish(&mut backoff, 10), 5);
    assert_eq!(pass.finish(&mut backoff, 10), 10);
    assert_eq!(pass.finish(&mut backoff, 10), 20);
    let clean = DrainPass::new();
    assert_eq!(clean.finish(&mut backoff, 10), 10);
    assert_eq!(backoff.attempts(), 0);
}

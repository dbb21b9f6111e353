//! One mining attempt for an (identity, challenge) pair: crash recovery of an
//! orphaned solution, the "already solved" checks, the search, and durable
//! queueing of a found solution before success is reported.
//!
//! The caller performs each action on local storage (or runs the search)
//! and answers it with one boolean: for a probe, whether the file exists;
//! for a write, enqueue or delete, whether it succeeded; for the search,
//! whether a nonce was found.

use vstd::prelude::*;
use crate::outcome::MiningResult;

verus! {

/// How an attempt ended.
#[derive(Debug, Clone, Copy, PartialEq, Eq, Structural)]
pub enum AttemptEnd {
    /// A solution was found and is durably queued (or, without local
    /// storage, submitted).
    Solved,
    /// A receipt or a queued entry shows this pair is already solved.
    AlreadySolved,
    /// The search found nothing, or its solution could not be queued.
    Failed,
    /// An orphaned solution was found but could not be queued.
    RecoveryFailed,
}

/// The next thing the caller must do.
#[derive(Debug, Clone, Copy, PartialEq, Eq, Structural)]
pub enum AttemptAction {
    /// Does a recovery marker exist for the pair?
    ProbeMarker,
    /// Append the solution read from the marker to the submission queue.
    EnqueueRecovered,
    /// Delete the marker whose solution was queued (a failure is a warning).
    DeleteRecoveredMarker,
    /// Is a solution for the pair already in the submission queue?
    ProbeQueue,
    /// Does a receipt exist at the identity's own path?
    ProbeReceipt,
    /// Does a receipt exist at the alternate path used for this identity?
    ProbeAlternateReceipt,
    /// Run the proof-of-work search.
    Search,
    /// Write the found solution to the recovery marker.
    WriteMarker,
    /// Append the found solution to the submission queue.
    EnqueueFound,
    /// Delete the marker of the solution just queued (a failure is a warning).
    DeleteFoundMarker,
    /// Without local storage: submit the found solution directly.
    SubmitFound,
    /// The attempt is over.
    Finish(AttemptEnd),
}

/// First action of an attempt.
pub open spec fn first_action(durable: bool) -> AttemptAction {
    if durable { AttemptAction::ProbeMarker } else { AttemptAction::Search }
}

/// Action that follows `a` once the caller answered it with `yes`.
pub open spec fn next_action(a: AttemptAction, yes: bool, durable: bool, alternate: bool) -> AttemptAction {
    match a {
        AttemptAction::ProbeMarker => if yes {
            AttemptAction::EnqueueRecovered
        } else {
            AttemptAction::ProbeQueue
        },
        AttemptAction::EnqueueRecovered => if yes {
            AttemptAction::DeleteRecoveredMarker
        } else {
            AttemptAction::Finish(AttemptEnd::RecoveryFailed)
        },
        AttemptAction::DeleteRecoveredMarker => AttemptAction::ProbeQueue,
        AttemptAction::ProbeQueue => if yes {
            AttemptAction::Finish(AttemptEnd::AlreadySolved)
        } else {
            AttemptAction::ProbeReceipt
        },
        AttemptAction::ProbeReceipt => if yes {
            AttemptAction::Finish(AttemptEnd::AlreadySolved)
        } else if alternate {
            AttemptAction::ProbeAlternateReceipt
        } else {
            AttemptAction::Search
        },
        AttemptAction::ProbeAlternateReceipt => if yes {
            AttemptAction::Finish(AttemptEnd::AlreadySolved)
        } else {
            AttemptAction::Search
        },
        AttemptAction::Search => if !yes {
            AttemptAction::Finish(AttemptEnd::Failed)
        } else if durable {
            AttemptAction::WriteMarker
        } else {
            AttemptAction::SubmitFound
        },
        AttemptAction::WriteMarker => AttemptAction::EnqueueFound,
        AttemptAction::EnqueueFound => if yes {
            AttemptAction::DeleteFoundMarker
        } else {
            AttemptAction::Finish(AttemptEnd::Failed)
        },
        AttemptAction::DeleteFoundMarker => AttemptAction::Finish(AttemptEnd::Solved),
        AttemptAction::SubmitFound => if yes {
            AttemptAction::Finish(AttemptEnd::Solved)
        } else {
            AttemptAction::Finish(AttemptEnd::Failed)
        },
        AttemptAction::Finish(e) => AttemptAction::Finish(e),
    }
}

/// The mining result that an attempt's end reports.
pub open spec fn result_of_end(e: AttemptEnd) -> MiningResult {
    match e {
        AttemptEnd::Solved => MiningResult::FoundAndQueued,
        AttemptEnd::AlreadySolved => MiningResult::AlreadySolved,
        _ => MiningResult::MiningFailed,
    }
}

/// The mining result that an attempt's end reports.
pub fn mining_result(e: AttemptEnd) -> (r: MiningResult)
    ensures
        r == result_of_end(e),
{
    match e {
        AttemptEnd::Solved => MiningResult::FoundAndQueued,
        AttemptEnd::AlreadySolved => MiningResult::AlreadySolved,
        _ => MiningResult::MiningFailed,
    }
}

/// Progress of one attempt.
pub struct Attempt {
    durable: bool,
    alternate: bool,
    pending: AttemptAction,
}

impl Attempt {
    pub closed spec fn spec_durable(&self) -> bool {
        self.durable
    }

    pub closed spec fn spec_alternate(&self) -> bool {
        self.alternate
    }

    /// The action the caller must perform and answer next.
    pub closed spec fn spec_pending(&self) -> AttemptAction {
        self.pending
    }

    /// Starts an attempt. `durable` says that local storage is in use;
    /// `alternate` that the identity has an alternate receipt path to check.
    pub fn start(durable: bool, alternate: bool) -> (r: (Attempt, AttemptAction))
        ensures
            r.0.spec_durable() == durable,
            r.0.spec_alternate() == alternate,
            r.0.spec_pending() == first_action(durable),
            r.1 == first_action(durable),
    {
        let a = if durable { AttemptAction::ProbeMarker } else { AttemptAction::Search };
        (Attempt { durable, alternate, pending: a }, a)
    }

    /// The action awaiting an answer.
    pub fn pending(&self) -> (r: AttemptAction)
        ensures
            r == self.spec_pending(),
    {
        self.pending
    }

    /// Answers the pending action and returns the next one.
    pub fn answer(&mut self, yes: bool) -> (r: AttemptAction)
        ensures
            r == next_action(old(self).spec_pending(), yes, old(self).spec_durable(), old(self).spec_alternate()),
            final(self).spec_pending() == r,
            final(self).spec_durable() == old(self).spec_durable(),
            final(self).spec_alternate() == old(self).spec_alternate(),
    {
        let a = match self.pending {
            AttemptAction::ProbeMarker => if yes {
                AttemptAction::EnqueueRecovered
            } else {
                AttemptAction::ProbeQueue
            },
            AttemptAction::EnqueueRecovered => if yes {
                AttemptAction::DeleteRecoveredMarker
            } else {
                AttemptAction::Finish(AttemptEnd::RecoveryFailed)
            },
            AttemptAction::DeleteRecoveredMarker => AttemptAction::ProbeQueue,
            AttemptAction::ProbeQueue => if yes {
                AttemptAction::Finish(AttemptEnd::AlreadySolved)
            } else {
                AttemptAction::ProbeReceipt
            },
            AttemptAction::ProbeReceipt => if yes {
                AttemptAction::Finish(AttemptEnd::AlreadySolved)
            } else if self.alternate {
                AttemptAction::ProbeAlternateReceipt
            } else {
                AttemptAction::Search
            },
            AttemptAction::ProbeAlternateReceipt => if yes {
                AttemptAction::Finish(AttemptEnd::AlreadySolved)
            } else {
                AttemptAction::Search
            },
            AttemptAction::Search => if !yes {
                AttemptAction::Finish(AttemptEnd::Failed)
            } else if self.durable {
                AttemptAction::WriteMarker
            } else {
                AttemptAction::SubmitFound
            },
            AttemptAction::WriteMarker => AttemptAction::EnqueueFound,
            AttemptAction::EnqueueFound => if yes {
                AttemptAction::DeleteFoundMarker
            } else {
                AttemptAction::Finish(AttemptEnd::Failed)
            },
            AttemptAction::DeleteFoundMarker => AttemptAction::Finish(AttemptEnd::Solved),
            AttemptAction::SubmitFound => if yes {
                AttemptAction::Finish(AttemptEnd::Solved)
            } else {
                AttemptAction::Finish(AttemptEnd::Failed)
            },
            AttemptAction::Finish(e) => AttemptAction::Finish(e),
        };
        self.pending = a;
        a
    }
}

// ---------------------------------------------------------------------
// A model of the local files of one (identity, challenge) pair, used to
// state what a whole attempt does to them.
// ---------------------------------------------------------------------

/// The local files of one pair: recovery marker, queue entry, receipts.
pub struct PairFiles {
    pub marker: bool,
    pub queued: bool,
    pub receipt: bool,
    pub alternate_receipt: bool,
}

/// Truthful answer to an action when every write succeeds and the search
/// finds a nonce exactly when `found`.
pub open spec fn truthful_answer(a: AttemptAction, f: PairFiles, found: bool) -> bool {
    match a {
        AttemptAction::ProbeMarker => f.marker,
        AttemptAction::ProbeQueue => f.queued,
        AttemptAction::ProbeReceipt => f.receipt,
        AttemptAction::ProbeAlternateReceipt => f.alternate_receipt,
        AttemptAction::Search => found,
        _ => true,
    }
}

/// Effect of a successful action on the files.
pub open spec fn apply_action(a: AttemptAction, f: PairFiles) -> PairFiles {
    match a {
        AttemptAction::EnqueueRecovered => PairFiles { queued: true, ..f },
        AttemptAction::EnqueueFound => PairFiles { queued: true, ..f },
        AttemptAction::DeleteRecoveredMarker => PairFiles { marker: false, ..f },
        AttemptAction::DeleteFoundMarker => PairFiles { marker: false, ..f },
        AttemptAction::WriteMarker => PairFiles { marker: true, ..f },
        _ => f,
    }
}

/// What a whole run observed.
pub struct RunTrace {
    pub last: AttemptAction,
    pub files: PairFiles,
    pub searched: bool,
    pub recoveries: nat,
}

/// Runs the attempt from action `a` for at most `fuel` steps against the
/// files, answering truthfully.
pub open spec fn run_attempt(
    a: AttemptAction,
    f: PairFiles,
    found: bool,
    durable: bool,
    alternate: bool,
    fuel: nat,
) -> RunTrace
    decreases fuel,
{
    if fuel == 0 || a is Finish {
        RunTrace { last: a, files: f, searched: false, recoveries: 0 }
    } else {
        let rest = run_attempt(
            next_action(a, truthful_answer(a, f, found), durable, alternate),
            apply_action(a, f),
            found,
            durable,
            alternate,
            (fuel - 1) as nat,
        );
        RunTrace {
            last: rest.last,
            files: rest.files,
            searched: rest.searched || a == AttemptAction::Search,
            recoveries: rest.recoveries + if a == AttemptAction::EnqueueRecovered { 1nat } else { 0nat },
        }
    }
}

/// Steps enough for any attempt to finish.
pub open spec fn attempt_fuel() -> nat {
    12
}

/// A whole attempt with local storage, from its first action.
pub open spec fn full_attempt(f: PairFiles, found: bool, alternate: bool) -> RunTrace {
    run_attempt(first_action(true), f, found, true, alternate, attempt_fuel())
}

/// Once a solution for the pair is queued or has a receipt, an attempt
/// ends as already solved without running the search.
pub proof fn lemma_attempt_idempotent(f: PairFiles, found: bool, alternate: bool)
    requires
        f.queued || f.receipt || (alternate && f.alternate_receipt),
    ensures
        full_attempt(f, found, alternate).last == AttemptAction::Finish(AttemptEnd::AlreadySolved),
        !full_attempt(f, found, alternate).searched,
{
    reveal_with_fuel(run_attempt, 13);
}

/// Mining the same pair twice: after an attempt that solved it, a second
/// attempt ends as already solved without running the search.
pub proof fn lemma_second_attempt_skips(f: PairFiles, found: bool, found_again: bool, alternate: bool)
    requires
        full_attempt(f, found, alternate).last == AttemptAction::Finish(AttemptEnd::Solved),
    ensures
        full_attempt(full_attempt(f, found, alternate).files, found_again, alternate).last
            == AttemptAction::Finish(AttemptEnd::AlreadySolved),
        !full_attempt(full_attempt(f, found, alternate).files, found_again, alternate).searched,
{
    reveal_with_fuel(run_attempt, 13);
}

proof fn lemma_attempt_clears_marker(f: PairFiles, found: bool, alternate: bool)
    ensures
        !full_attempt(f, found, alternate).files.marker,
        f.marker ==> full_attempt(f, found, alternate).recoveries == 1
            && full_attempt(f, found, alternate).files.queued,
        !f.marker ==> full_attempt(f, found, alternate).recoveries == 0,
{
    reveal_with_fuel(run_attempt, 13);
}

/// Crash recovery: an orphaned marker is queued and removed exactly once;
/// with no marker, nothing is recovered; a second attempt recovers nothing.
pub proof fn lemma_recovery_exactly_once(f: PairFiles, found: bool, found_again: bool, alternate: bool)
    ensures
        f.marker ==> full_attempt(f, found, alternate).recoveries == 1
            && full_attempt(f, found, alternate).files.queued
            && !full_attempt(f, found, alternate).files.marker,
        !f.marker ==> full_attempt(f, found, alternate).recoveries == 0,
        full_attempt(full_attempt(f, found, alternate).files, found_again, alternate).recoveries == 0,
{
    lemma_attempt_clears_marker(f, found, alternate);
    lemma_attempt_clears_marker(full_attempt(f, found, alternate).files, found_again, alternate);
}

/// With local storage, success is reported only once the solution is queued.
pub proof fn lemma_solved_means_queued(f: PairFiles, found: bool, alternate: bool)
    ensures
        full_attempt(f, found, alternate).last == AttemptAction::Finish(AttemptEnd::Solved)
            ==> full_attempt(f, found, alternate).files.queued && full_attempt(f, found, alternate).searched,
        full_attempt(f, found, alternate).last is Finish,
{
    reveal_with_fuel(run_attempt, 13);
}

} // verus!

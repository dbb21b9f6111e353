//! The durable submission queue: entry names, and the background drainer's
//! decisions for each entry and after each pass over the queue.

use vstd::prelude::*;
use crate::backoff::{Backoff, delay_for};
use crate::layout::{is_safe_component, safe_component, PathError};
use crate::text::{contains_text, has_substring};

verus! {

/// A found solution awaiting confirmed submission.
pub struct PendingSolution {
    pub address: String,
    pub challenge_id: String,
    pub nonce: String,
    pub donate_to: Option<String>,
}

/// Name of the queue entry of an (address, challenge) pair.
pub open spec fn entry_name_spec(address: Seq<char>, challenge_id: Seq<char>) -> Seq<char> {
    address + "#"@ + challenge_id + ".json"@
}

/// Name of the queue entry that holds the pending solution of `address`
/// for `challenge_id`; both must be safe path components.
pub fn queue_entry_name(address: &String, challenge_id: &String) -> (r: Result<String, PathError>)
    ensures
        r is Ok <==> is_safe_component(address@) && is_safe_component(challenge_id@),
        r is Ok ==> r->Ok_0@ == entry_name_spec(address@, challenge_id@),
{
    if !safe_component(address.as_str()) || !safe_component(challenge_id.as_str()) {
        return Err(PathError::UnsafeComponent);
    }
    let mut s = address.clone();
    s.append("#");
    s.append(challenge_id.as_str());
    s.append(".json");
    Ok(s)
}

/// Queue entries of different pairs have different names, so a lookup by
/// name finds exactly the pair's own entry.
pub proof fn lemma_entry_names_distinct(a1: Seq<char>, c1: Seq<char>, a2: Seq<char>, c2: Seq<char>)
    requires
        is_safe_component(a1),
        is_safe_component(a2),
        entry_name_spec(a1, c1) == entry_name_spec(a2, c2),
    ensures
        a1 == a2,
        c1 == c2,
{
    reveal_strlit("#");
    reveal_strlit(".json");
    let n1 = entry_name_spec(a1, c1);
    let n2 = entry_name_spec(a2, c2);
    if a1.len() < a2.len() {
        assert(n1[a1.len() as int] == '#');
        assert(n2[a1.len() as int] == a2[a1.len() as int]);
        assert(false);
    } else if a2.len() < a1.len() {
        assert(n2[a2.len() as int] == '#');
        assert(n1[a2.len() as int] == a1[a2.len() as int]);
        assert(false);
    }
    assert(a1 =~= n1.subrange(0, a1.len() as int));
    assert(a2 =~= n2.subrange(0, a2.len() as int));
    assert(c1 =~= n1.subrange(a1.len() as int + 1, n1.len() as int - 5));
    assert(c2 =~= n2.subrange(a2.len() as int + 1, n2.len() as int - 5));
}

/// What the coordinator answered to one submission.
#[derive(Debug, Clone, Copy, PartialEq, Eq, Structural)]
pub enum SubmitOutcome {
    /// The submission was accepted.
    Accepted,
    /// The coordinator already holds this solution.
    AlreadyAccepted,
    /// Any other failure: try again on a later pass.
    Retryable,
}

/// An error message that says the solution was already submitted.
pub open spec fn says_already_submitted(msg: Seq<char>) -> bool {
    has_substring(msg, "already"@) || has_substring(msg, "409"@) || has_substring(msg, "Conflict"@)
}

/// Classifies the coordinator's answer to a submission: success, or an
/// error message.
pub fn classify_submission(response: &Result<String, String>) -> (r: SubmitOutcome)
    ensures
        r == match response {
            Ok(_) => SubmitOutcome::Accepted,
            Err(msg) => if says_already_submitted(msg@) {
                SubmitOutcome::AlreadyAccepted
            } else {
                SubmitOutcome::Retryable
            },
        },
{
    match response {
        Ok(_) => SubmitOutcome::Accepted,
        Err(msg) => {
            let m = msg.as_str();
            if contains_text(m, "already") || contains_text(m, "409") || contains_text(m, "Conflict") {
                SubmitOutcome::AlreadyAccepted
            } else {
                SubmitOutcome::Retryable
            }
        },
    }
}

/// Whether a queue entry is settled by this answer: a receipt is written
/// and the entry removed. Otherwise it stays for a later pass.
pub fn settles_entry(outcome: SubmitOutcome) -> (r: bool)
    ensures
        r == (outcome != SubmitOutcome::Retryable),
{
    match outcome {
        SubmitOutcome::Retryable => false,
        _ => true,
    }
}

/// Tally of one pass of the drainer over the queue.
pub struct DrainPass {
    pub settled: usize,
    pub kept: usize,
}

impl DrainPass {
    pub fn new() -> (r: DrainPass)
        ensures
            r.settled == 0,
            r.kept == 0,
    {
        DrainPass { settled: 0, kept: 0 }
    }

    /// Counts one entry's outcome.
    pub fn record(&mut self, outcome: SubmitOutcome)
        ensures
            outcome != SubmitOutcome::Retryable ==> final(self).settled == if old(self).settled < usize::MAX {
                old(self).settled + 1
            } else {
                old(self).settled as int
            } && final(self).kept == old(self).kept,
            outcome == SubmitOutcome::Retryable ==> final(self).kept == if old(self).kept < usize::MAX {
                old(self).kept + 1
            } else {
                old(self).kept as int
            } && final(self).settled == old(self).settled,
    {
        if settles_entry(outcome) {
            if self.settled < usize::MAX {
                self.settled = self.settled + 1;
            }
        } else if self.kept < usize::MAX {
            self.kept = self.kept + 1;
        }
    }

    /// Seconds to wait before the next pass. A pass that left entries behind
    /// waits on the drainer's backoff; a clean pass resets it and waits
    /// `idle` seconds.
    pub fn finish(&self, backoff: &mut Backoff, idle: u64) -> (r: u64)
        requires
            old(backoff).wf(),
        ensures
            final(backoff).wf(),
            final(backoff).spec_base() == old(backoff).spec_base(),
            final(backoff).spec_cap() == old(backoff).spec_cap(),
            final(backoff).spec_multiplier() == old(backoff).spec_multiplier(),
            self.kept == 0 ==> r == idle && final(backoff).spec_attempts() == 0,
            self.kept > 0 ==> r == delay_for(
                old(backoff).spec_base(), old(backoff).spec_cap(), old(backoff).spec_multiplier(), old(backoff).spec_attempts(),
            ),
            self.kept > 0 && old(backoff).spec_attempts() < u64::MAX ==> final(backoff).spec_attempts() == old(backoff).spec_attempts() + 1,
    {
        if self.kept == 0 {
            backoff.reset();
            idle
        } else if backoff.attempts() < u64::MAX {
            backoff.next_delay()
        } else {
            backoff.peek_delay()
        }
    }
}

} // verus!

//! The challenge source: tracks the active challenge across polls, detects
//! rotation, and keeps mining on the last known challenge through brief
//! network failures.

use vstd::prelude::*;
use crate::text::{is_network_failure, is_network_failure_spec};

verus! {

/// What the miner needs to know of one challenge round. The hashing
/// dataset that goes with it is held by the caller.
pub struct ChallengeInfo {
    pub challenge_id: String,
    pub day: u8,
    pub latest_submission: String,
    pub difficulty: String,
}

impl ChallengeInfo {
    /// A copy of this record.
    pub fn duplicate(&self) -> (r: ChallengeInfo)
        ensures
            r == *self,
    {
        ChallengeInfo {
            challenge_id: self.challenge_id.clone(),
            day: self.day,
            latest_submission: self.latest_submission.clone(),
            difficulty: self.difficulty.clone(),
        }
    }
}

/// What one poll of the coordinator observed.
pub enum ChallengePoll {
    /// A challenge is active (or, when pinned, the pinned one was fetched).
    Active(ChallengeInfo),
    /// No challenge can be worked on right now.
    NoneActive,
    /// The poll failed; the message says why.
    Failure(String),
}

/// What the caller does after a poll.
pub enum ChallengeStep {
    /// Mine this challenge; `rotated` tells that it replaced another one.
    Mine { challenge: ChallengeInfo, rotated: bool },
    /// The coordinator is unreachable: keep mining the last known challenge.
    Reuse(ChallengeInfo),
    /// No challenge is active: poll again.
    PollAgain,
    /// The poll failed with nothing to fall back on: wait, then poll again.
    Wait,
}

/// Next step after a poll, given the last challenge seen and whether one
/// challenge id was pinned by the operator.
pub open spec fn step_after_poll(
    pinned: bool,
    last: Option<ChallengeInfo>,
    poll: ChallengePoll,
) -> ChallengeStep {
    match poll {
        ChallengePoll::Active(c) => ChallengeStep::Mine {
            challenge: c,
            rotated: !pinned && last is Some && last->Some_0.challenge_id@ != c.challenge_id@,
        },
        ChallengePoll::NoneActive => ChallengeStep::PollAgain,
        ChallengePoll::Failure(msg) => if last is Some && is_network_failure_spec(msg@) {
            ChallengeStep::Reuse(last->Some_0)
        } else {
            ChallengeStep::Wait
        },
    }
}

/// Tracks the challenge across polls.
pub struct ChallengeSource {
    pinned: Option<String>,
    last: Option<ChallengeInfo>,
}

impl ChallengeSource {
    pub closed spec fn spec_pinned(&self) -> Option<String> {
        self.pinned
    }

    /// The last challenge that a poll returned, if any.
    pub closed spec fn spec_last(&self) -> Option<ChallengeInfo> {
        self.last
    }

    /// A source that follows whatever challenge is active, or, with
    /// `pinned`, only that challenge id.
    pub fn new(pinned: Option<String>) -> (r: ChallengeSource)
        ensures
            r.spec_pinned() == pinned,
            r.spec_last() is None,
    {
        ChallengeSource { pinned, last: None }
    }

    /// The pinned challenge id to fetch, or `None` to ask for the active one.
    pub fn pinned(&self) -> (r: &Option<String>)
        ensures
            *r == self.spec_pinned(),
    {
        &self.pinned
    }

    /// Id of the last challenge seen, if any.
    pub fn last_id(&self) -> (r: Option<&String>)
        ensures
            r is Some <==> self.spec_last() is Some,
            r is Some ==> *r->Some_0 == self.spec_last()->Some_0.challenge_id,
    {
        match &self.last {
            Some(c) => Some(&c.challenge_id),
            None => None,
        }
    }

    /// Takes in the result of one poll and says what to do next. A fresh
    /// challenge becomes the last known one; on a network-layer failure the
    /// last known challenge is handed back; other failures ask to wait.
    pub fn observe(&mut self, poll: ChallengePoll) -> (r: ChallengeStep)
        ensures
            r == step_after_poll(old(self).spec_pinned() is Some, old(self).spec_last(), poll),
            final(self).spec_pinned() == old(self).spec_pinned(),
            final(self).spec_last() == match poll {
                ChallengePoll::Active(c) => Some(c),
                _ => old(self).spec_last(),
            },
    {
        match poll {
            ChallengePoll::Active(c) => {
                let rotated = match &self.last {
                    Some(prev) => self.pinned.is_none() && prev.challenge_id != c.challenge_id,
                    None => false,
                };
                self.last = Some(c.duplicate());
                ChallengeStep::Mine { challenge: c, rotated }
            },
            ChallengePoll::NoneActive => ChallengeStep::PollAgain,
            ChallengePoll::Failure(msg) => {
                match &self.last {
                    Some(prev) => {
                        if is_network_failure(msg.as_str()) {
                            ChallengeStep::Reuse(prev.duplicate())
                        } else {
                            ChallengeStep::Wait
                        }
                    },
                    None => ChallengeStep::Wait,
                }
            },
        }
    }

    /// After a failed search, whether to retry the same challenge after a
    /// pause or to poll for a new one. `recheck` is a fresh poll of the
    /// active challenge; a pinned challenge is always retried.
    pub fn after_failed_search(&self, recheck: &ChallengePoll) -> (retry_same: bool)
        ensures
            retry_same == (self.spec_pinned() is Some || (match recheck {
                ChallengePoll::Active(c) => self.spec_last() is Some
                    && c.challenge_id@ == self.spec_last()->Some_0.challenge_id@,
                _ => false,
            })),
    {
        if self.pinned.is_some() {
            return true;
        }
        match (recheck, &self.last) {
            (ChallengePoll::Active(c), Some(prev)) => c.challenge_id == prev.challenge_id,
            _ => false,
        }
    }
}

/// Whether a poll made during a round shows that the round's challenge
/// was replaced.
pub fn is_rotation(round_id: &String, poll: &ChallengePoll) -> (r: bool)
    ensures
        r == (match poll {
            ChallengePoll::Active(c) => c.challenge_id@ != round_id@,
            _ => false,
        }),
{
    match poll {
        ChallengePoll::Active(c) => c.challenge_id != *round_id,
        _ => false,
    }
}

/// Longest wait for a new challenge once a round is done, in polls.
pub const MAX_WAIT_POLLS: u32 = 60;

/// Waiting for the next challenge after a round.
#[derive(Debug, Clone, Copy, PartialEq, Eq, Structural)]
pub enum RoundWait {
    /// A new challenge is active: start a round on it.
    Start,
    /// Keep waiting.
    Keep,
    /// Waited long enough: hand control back to the outer loop.
    GiveUp,
}

/// Decision after the `polls`-th poll (counting from one) while waiting for
/// a challenge other than `finished_id`.
pub fn wait_for_next_round(polls: u32, finished_id: &String, poll: &ChallengePoll) -> (r: RoundWait)
    ensures
        r == if is_new_challenge(finished_id@, *poll) {
            RoundWait::Start
        } else if polls >= MAX_WAIT_POLLS {
            RoundWait::GiveUp
        } else {
            RoundWait::Keep
        },
{
    let fresh = match poll {
        ChallengePoll::Active(c) => c.challenge_id != *finished_id,
        _ => false,
    };
    if fresh {
        RoundWait::Start
    } else if polls >= MAX_WAIT_POLLS {
        RoundWait::GiveUp
    } else {
        RoundWait::Keep
    }
}

/// The poll shows an active challenge other than `id`.
pub open spec fn is_new_challenge(id: Seq<char>, poll: ChallengePoll) -> bool {
    match poll {
        ChallengePoll::Active(c) => c.challenge_id@ != id,
        _ => false,
    }
}

} // verus!

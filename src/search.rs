//! Bookkeeping of the parallel nonce search: which nonces each worker lane
//! tries, when it polls the cancellation flags, and the checks made before
//! a search starts. The hashing itself is done by the caller.

use vstd::prelude::*;
use crate::difficulty::{difficulty_to_zero_bits, target_zero_bits, DifficultyError};
use crate::attempt::{next_action, result_of_end, AttemptAction, AttemptEnd};
use crate::outcome::MiningResult;

verus! {

/// A worker polls its cancellation flags before every this many hashes.
pub const CANCEL_CHECK_INTERVAL: u64 = 4096;

/// Why a search cannot start.
#[derive(Debug, Clone, Copy, PartialEq, Eq, Structural)]
pub enum SearchError {
    /// No worker thread was asked for.
    ZeroThreads,
    /// The difficulty target is empty.
    EmptyTarget,
    /// The difficulty target is not hex.
    MalformedTarget,
}

/// Checks a search's configuration; on success returns the number of
/// leading zero bits that a hash must have.
pub fn prepare_search(threads: usize, difficulty_hex: &str) -> (r: Result<usize, SearchError>)
    requires
        difficulty_hex@.len() <= usize::MAX / 4,
    ensures
        threads == 0 ==> r == Err::<usize, SearchError>(SearchError::ZeroThreads),
        threads > 0 && difficulty_hex@.len() == 0 ==> r == Err::<usize, SearchError>(SearchError::EmptyTarget),
        threads > 0 && difficulty_hex@.len() > 0 && target_zero_bits(difficulty_hex@) is None
            ==> r == Err::<usize, SearchError>(SearchError::MalformedTarget),
        r is Ok <==> threads > 0 && target_zero_bits(difficulty_hex@) is Some,
        r is Ok ==> r->Ok_0 == target_zero_bits(difficulty_hex@)->Some_0,
{
    if threads == 0 {
        return Err(SearchError::ZeroThreads);
    }
    match difficulty_to_zero_bits(difficulty_hex) {
        Ok(z) => Ok(z),
        Err(DifficultyError::Empty) => Err(SearchError::EmptyTarget),
        Err(DifficultyError::Malformed) => Err(SearchError::MalformedTarget),
    }
}

/// The `k`-th nonce that lane `index` of `count` lanes tries, from `start`.
pub open spec fn lane_nonce(start: u64, index: u64, count: u64, k: nat) -> int {
    start + index + k * count
}

/// One worker's share of the nonce space: nonces `start + index`,
/// `start + index + count`, ... up to `u64::MAX`.
pub struct NonceLane {
    start: u64,
    index: u64,
    count: u64,
    hashes: u64,
    next: u64,
    exhausted: bool,
}

impl NonceLane {
    pub closed spec fn spec_start(&self) -> u64 {
        self.start
    }

    pub closed spec fn spec_index(&self) -> u64 {
        self.index
    }

    pub closed spec fn spec_count(&self) -> u64 {
        self.count
    }

    /// Nonces handed out so far.
    pub closed spec fn spec_hashes(&self) -> nat {
        self.hashes as nat
    }

    /// Whether the lane has nonces left.
    pub closed spec fn spec_exhausted(&self) -> bool {
        self.exhausted
    }

    pub closed spec fn wf(&self) -> bool {
        &&& self.index < self.count
        &&& !self.exhausted ==> self.next == lane_nonce(self.start, self.index, self.count, self.hashes as nat)
        &&& self.exhausted ==> lane_nonce(self.start, self.index, self.count, self.hashes as nat) > u64::MAX
    }

    /// Lane `index` of `count` lanes, starting at nonce `start`.
    pub fn new(start: u64, index: u64, count: u64) -> (r: NonceLane)
        requires
            index < count,
        ensures
            r.wf(),
            r.spec_start() == start,
            r.spec_index() == index,
            r.spec_count() == count,
            r.spec_hashes() == 0,
            r.spec_exhausted() == (start + index > u64::MAX),
    {
        if start as u128 + index as u128 > u64::MAX as u128 {
            NonceLane { start, index, count, hashes: 0, next: 0, exhausted: true }
        } else {
            NonceLane { start, index, count, hashes: 0, next: start + index, exhausted: false }
        }
    }

    /// Nonces handed out so far.
    pub fn hashes(&self) -> (r: u64)
        ensures
            r == self.spec_hashes(),
    {
        self.hashes
    }

    /// Whether the worker must poll its cancellation flags before hashing
    /// the next nonce: before the first one, then every
    /// `CANCEL_CHECK_INTERVAL` hashes.
    pub fn polls_now(&self) -> (r: bool)
        ensures
            r == (self.spec_hashes() % (CANCEL_CHECK_INTERVAL as nat) == 0),
    {
        self.hashes % CANCEL_CHECK_INTERVAL == 0
    }

    /// The next nonce of the lane, or `None` when the lane ran past `u64::MAX`.
    pub fn next_nonce(&mut self) -> (r: Option<u64>)
        requires
            old(self).wf(),
        ensures
            final(self).wf(),
            final(self).spec_start() == old(self).spec_start(),
            final(self).spec_index() == old(self).spec_index(),
            final(self).spec_count() == old(self).spec_count(),
            r is Some <==> !old(self).spec_exhausted() && old(self).spec_hashes() < u64::MAX,
            r is Some ==> r->Some_0 == lane_nonce(
                old(self).spec_start(), old(self).spec_index(), old(self).spec_count(), old(self).spec_hashes(),
            ) && final(self).spec_hashes() == old(self).spec_hashes() + 1
              && final(self).spec_exhausted() == (lane_nonce(
                old(self).spec_start(), old(self).spec_index(), old(self).spec_count(), old(self).spec_hashes() + 1,
            ) > u64::MAX),
            r is None ==> *final(self) == *old(self),
    {
        if self.exhausted || self.hashes == u64::MAX {
            return None;
        }
        let nonce = self.next;
        proof {
            assert(lane_nonce(self.start, self.index, self.count, (self.hashes + 1) as nat)
                == lane_nonce(self.start, self.index, self.count, self.hashes as nat) + self.count) by (nonlinear_arith);
        }
        if self.next as u128 + self.count as u128 > u64::MAX as u128 {
            self.exhausted = true;
        } else {
            self.next = self.next + self.count;
        }
        self.hashes = self.hashes + 1;
        Some(nonce)
    }
}

/// The lanes partition the nonces from `start` on: nonce `x` is tried by
/// lane `(x - start) % count` as its `(x - start) / count`-th nonce, and by
/// no other lane.
pub proof fn lemma_lanes_partition(start: u64, count: u64, x: int, index: u64, k: nat)
    requires
        count > 0,
        x >= start,
        index < count,
        lane_nonce(start, index, count, k) == x,
    ensures
        index == (x - start) % (count as int),
        k == (x - start) / (count as int),
{
    assert(x - start == k * count + index);
    vstd::arithmetic::div_mod::lemma_fundamental_div_mod_converse(
        x - start, count as int, k as int, index as int,
    );
}

/// Whether a worker stops before hashing its next nonce: it polls the flags
/// (see `polls_now`) and finds its own cancellation flag or the "found" flag
/// of its siblings set.
pub open spec fn stops_before_next(lane: NonceLane, cancelled: bool, sibling_found: bool) -> bool {
    lane.spec_hashes() % (CANCEL_CHECK_INTERVAL as nat) == 0 && (cancelled || sibling_found)
}

/// Whether a worker stops before hashing its next nonce.
pub fn worker_should_stop(lane: &NonceLane, cancelled: bool, sibling_found: bool) -> (r: bool)
    ensures
        r == stops_before_next(*lane, cancelled, sibling_found),
{
    lane.polls_now() && (cancelled || sibling_found)
}

/// A search whose cancellation flag is set before it starts: every worker
/// stops before trying its first nonce, so nothing is found, and the
/// attempt reports `MiningFailed`.
pub proof fn lemma_preset_cancel_fails(lane: NonceLane, sibling_found: bool, durable: bool, alternate: bool)
    requires
        lane.spec_hashes() == 0,
    ensures
        stops_before_next(lane, true, sibling_found),
        next_action(AttemptAction::Search, false, durable, alternate) == AttemptAction::Finish(AttemptEnd::Failed),
        result_of_end(AttemptEnd::Failed) == MiningResult::MiningFailed,
{
}

} // verus!

//! Sequentially derived identities: which derivation index to mine next
//! for the current challenge.

use vstd::prelude::*;
use crate::outcome::MiningResult;

verus! {

/// Largest entry of a non-empty sequence.
pub open spec fn seq_max(s: Seq<u32>) -> u32
    recommends
        s.len() > 0,
    decreases s.len(),
{
    if s.len() <= 1 {
        s[0]
    } else {
        let m = seq_max(s.drop_last());
        if s.last() > m { s.last() } else { m }
    }
}

proof fn lemma_seq_max_bound(s: Seq<u32>)
    requires
        s.len() > 0,
    ensures
        forall|i: int| 0 <= i < s.len() ==> s[i] <= seq_max(s),
        exists|i: int| 0 <= i < s.len() && s[i] == seq_max(s),
    decreases s.len(),
{
    if s.len() > 1 {
        lemma_seq_max_bound(s.drop_last());
        let w = choose|i: int| 0 <= i < s.len() - 1 && s.drop_last()[i] == seq_max(s.drop_last());
        assert(s[w] == s.drop_last()[w]);
        assert(s[s.len() - 1] == s.last());
        assert forall|i: int| 0 <= i < s.len() implies s[i] <= seq_max(s) by {
            if i < s.len() - 1 {
                assert(s[i] == s.drop_last()[i]);
            }
        }
        if s.last() > seq_max(s.drop_last()) {
            assert(s[s.len() - 1] == seq_max(s));
        } else {
            assert(s[w] == seq_max(s));
        }
    } else {
        assert(s[0] == seq_max(s));
    }
}

/// Index one past `i`, wrapping at the top of the `u32` range.
pub open spec fn index_after(i: u32) -> u32 {
    if i == u32::MAX { 0 } else { (i + 1) as u32 }
}

/// The first index after the highest one that has a receipt, or 0 when no
/// index has one.
pub open spec fn index_after_receipts(receipted: Seq<u32>) -> u32 {
    if receipted.len() == 0 { 0 } else { index_after(seq_max(receipted)) }
}

/// The first index after the highest one that has a receipt for the
/// challenge (0 when none has).
pub fn next_index_after_receipts(receipted: &Vec<u32>) -> (r: u32)
    ensures
        r == index_after_receipts(receipted@),
{
    if receipted.len() == 0 {
        return 0;
    }
    let mut m = receipted[0];
    let mut i: usize = 1;
    while i < receipted.len()
        invariant
            1 <= i <= receipted@.len(),
            m == seq_max(receipted@.subrange(0, i as int)),
        decreases receipted@.len() - i,
    {
        proof {
            assert(receipted@.subrange(0, i + 1).drop_last() =~= receipted@.subrange(0, i as int));
        }
        if receipted[i] > m {
            m = receipted[i];
        }
        i = i + 1;
    }
    proof {
        assert(receipted@.subrange(0, receipted@.len() as int) =~= receipted@);
    }
    if m == u32::MAX { 0 } else { m + 1 }
}

/// Where the mining of sequentially derived identities stands.
pub struct IndexCursor {
    index: u32,
    starting_index: u32,
    challenge: Option<String>,
    max_registered: Option<u32>,
}

impl IndexCursor {
    /// Index mined (or checked) next.
    pub closed spec fn spec_index(&self) -> u32 {
        self.index
    }

    /// The operator's lowest index.
    pub closed spec fn spec_starting_index(&self) -> u32 {
        self.starting_index
    }

    /// The challenge the index belongs to, once one was seen.
    pub closed spec fn spec_challenge(&self) -> Option<String> {
        self.challenge
    }

    /// Highest index registered with the coordinator in this run.
    pub closed spec fn spec_max_registered(&self) -> Option<u32> {
        self.max_registered
    }

    pub fn new(starting_index: u32) -> (r: IndexCursor)
        ensures
            r.spec_index() == starting_index,
            r.spec_starting_index() == starting_index,
            r.spec_challenge() is None,
            r.spec_max_registered() is None,
    {
        IndexCursor { index: starting_index, starting_index, challenge: None, max_registered: None }
    }

    pub fn index(&self) -> (r: u32)
        ensures
            r == self.spec_index(),
    {
        self.index
    }

    /// Whether a challenge calls for a fresh scan of receipts: it is the
    /// first challenge seen, or (when not pinned) it differs from the last.
    pub fn needs_rescan(&self, challenge_id: &String, pinned: bool) -> (r: bool)
        ensures
            r == (self.spec_challenge() is None || (!pinned && self.spec_challenge()->Some_0@ != challenge_id@)),
    {
        match &self.challenge {
            None => true,
            Some(c) => !pinned && *c != *challenge_id,
        }
    }

    /// Takes up a challenge. When it calls for a rescan, the index moves to
    /// the later of the first index after the receipted ones and the
    /// operator's starting index; otherwise it is kept.
    pub fn begin_challenge(&mut self, challenge_id: String, pinned: bool, receipted: &Vec<u32>)
        ensures
            final(self).spec_challenge() == Some(challenge_id),
            final(self).spec_starting_index() == old(self).spec_starting_index(),
            final(self).spec_max_registered() == old(self).spec_max_registered(),
            final(self).spec_index() == if old(self).spec_challenge() is None
                || (!pinned && old(self).spec_challenge()->Some_0@ != challenge_id@) {
                let from = index_after_receipts(receipted@);
                if from >= old(self).spec_starting_index() { from } else { old(self).spec_starting_index() }
            } else {
                old(self).spec_index()
            },
    {
        if self.needs_rescan(&challenge_id, pinned) {
            let from = next_index_after_receipts(receipted);
            self.index = if from >= self.starting_index { from } else { self.starting_index };
        }
        self.challenge = Some(challenge_id);
    }

    /// Whether the recovery and pending-queue checks apply to the current
    /// index: only from the operator's starting index on.
    pub fn recovery_applies(&self) -> (r: bool)
        ensures
            r == (self.spec_index() >= self.spec_starting_index()),
    {
        self.index >= self.starting_index
    }

    /// Skips the current index (it is already solved or pending).
    pub fn skip(&mut self)
        ensures
            final(self).spec_index() == index_after(old(self).spec_index()),
            final(self).spec_starting_index() == old(self).spec_starting_index(),
            final(self).spec_challenge() == old(self).spec_challenge(),
            final(self).spec_max_registered() == old(self).spec_max_registered(),
    {
        self.index = if self.index == u32::MAX { 0 } else { self.index + 1 };
    }

    /// Whether the current index still has to be registered in this run.
    pub fn needs_registration(&self) -> (r: bool)
        ensures
            r == (self.spec_max_registered() is None || self.spec_index() > self.spec_max_registered()->Some_0),
    {
        match self.max_registered {
            None => true,
            Some(m) => self.index > m,
        }
    }

    /// Notes that the current index is registered.
    pub fn mark_registered(&mut self)
        ensures
            final(self).spec_max_registered() == Some(old(self).spec_index()),
            final(self).spec_index() == old(self).spec_index(),
            final(self).spec_starting_index() == old(self).spec_starting_index(),
            final(self).spec_challenge() == old(self).spec_challenge(),
    {
        self.max_registered = Some(self.index);
    }

    /// After a search: a solved (or already solved) index moves on to the
    /// next one; a failed search keeps the same index.
    pub fn after_result(&mut self, result: MiningResult)
        ensures
            final(self).spec_index() == match result {
                MiningResult::MiningFailed => old(self).spec_index(),
                _ => index_after(old(self).spec_index()),
            },
            final(self).spec_starting_index() == old(self).spec_starting_index(),
            final(self).spec_challenge() == old(self).spec_challenge(),
            final(self).spec_max_registered() == old(self).spec_max_registered(),
    {
        match result {
            MiningResult::MiningFailed => {},
            _ => self.skip(),
        }
    }
}

/// The index chosen after a rescan is never below the operator's starting
/// index, and is above every receipted index unless that one is `u32::MAX`.
pub proof fn lemma_rescan_skips_receipts(receipted: Seq<u32>, start: u32, i: int)
    requires
        0 <= i < receipted.len(),
        seq_max(receipted) < u32::MAX,
    ensures
        ({
            let from = index_after_receipts(receipted);
            let chosen = if from >= start { from } else { start };
            chosen >= start && chosen > receipted[i]
        }),
{
    lemma_seq_max_bound(receipted);
}

} // verus!

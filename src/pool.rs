//! The wallet-pool scheduler: keeps a bounded number of search workers busy
//! over an identity roster for one challenge round, refills each freed slot
//! in roster order, and drains every worker when the challenge rotates.

use vstd::prelude::*;
use crate::outcome::MiningResult;

verus! {

/// Per-identity status shown on the live dashboard.
#[derive(Debug, Clone, Copy, PartialEq, Eq, Structural)]
pub enum WalletStatus {
    Waiting,
    Mining,
    Solved,
    Failed,
    Skipped,
}

/// Status that a finished search leaves on its identity.
pub open spec fn status_after(result: MiningResult) -> WalletStatus {
    match result {
        MiningResult::FoundAndQueued => WalletStatus::Solved,
        MiningResult::AlreadySolved => WalletStatus::Skipped,
        MiningResult::MiningFailed => WalletStatus::Failed,
    }
}

/// Number of entries of `s` equal to `x`.
pub open spec fn count_status(s: Seq<WalletStatus>, x: WalletStatus) -> nat
    decreases s.len(),
{
    if s.len() == 0 {
        0
    } else {
        count_status(s.drop_last(), x) + if s.last() == x { 1nat } else { 0nat }
    }
}

proof fn lemma_count_update(s: Seq<WalletStatus>, i: int, v: WalletStatus, x: WalletStatus)
    requires
        0 <= i < s.len(),
    ensures
        count_status(s.update(i, v), x) + (if s[i] == x { 1nat } else { 0nat })
            == count_status(s, x) + (if v == x { 1nat } else { 0nat }),
    decreases s.len(),
{
    let t = s.update(i, v);
    if i == s.len() - 1 {
        assert(t.drop_last() =~= s.drop_last());
    } else {
        assert(t.drop_last() =~= s.drop_last().update(i, v));
        lemma_count_update(s.drop_last(), i, v, x);
    }
}

proof fn lemma_count_zero(s: Seq<WalletStatus>, x: WalletStatus)
    requires
        count_status(s, x) == 0,
    ensures
        forall|i: int| 0 <= i < s.len() ==> s[i] != x,
    decreases s.len(),
{
    if s.len() > 0 {
        lemma_count_zero(s.drop_last(), x);
        assert forall|i: int| 0 <= i < s.len() implies s[i] != x by {
            if i < s.len() - 1 {
                assert(s.drop_last()[i] == s[i]);
            }
        }
    }
}

proof fn lemma_count_all(s: Seq<WalletStatus>, x: WalletStatus)
    requires
        forall|i: int| 0 <= i < s.len() ==> s[i] == x,
    ensures
        count_status(s, x) == s.len(),
    decreases s.len(),
{
    if s.len() > 0 {
        lemma_count_all(s.drop_last(), x);
    }
}

proof fn lemma_count_none(s: Seq<WalletStatus>, x: WalletStatus)
    requires
        forall|i: int| 0 <= i < s.len() ==> s[i] != x,
    ensures
        count_status(s, x) == 0,
    decreases s.len(),
{
    if s.len() > 0 {
        lemma_count_none(s.drop_last(), x);
    }
}

/// Why a pool round could not start.
#[derive(Debug, Clone, Copy, PartialEq, Eq, Structural)]
pub enum PoolError {
    /// The roster holds no identity.
    EmptyRoster,
    /// The concurrency limit is zero.
    ZeroConcurrency,
}

/// Scheduling state of one challenge round over a roster.
pub struct PoolRound {
    roster_len: usize,
    concurrency: usize,
    next: usize,
    completed: usize,
    cancelled: bool,
    statuses: Vec<WalletStatus>,
}

pub open spec fn min_int(a: int, b: int) -> int {
    if a <= b { a } else { b }
}

impl PoolRound {
    pub closed spec fn spec_roster_len(&self) -> nat {
        self.roster_len as nat
    }

    pub closed spec fn spec_concurrency(&self) -> nat {
        self.concurrency as nat
    }

    /// Roster entries launched so far, always a prefix of the roster.
    pub closed spec fn spec_launched(&self) -> nat {
        self.next as nat
    }

    /// Workers that have reported back.
    pub closed spec fn spec_completed(&self) -> nat {
        self.completed as nat
    }

    /// Whether the round was cancelled by a challenge rotation.
    pub closed spec fn spec_cancelled(&self) -> bool {
        self.cancelled
    }

    pub closed spec fn spec_statuses(&self) -> Seq<WalletStatus> {
        self.statuses@
    }

    /// Workers launched and not yet reported back (still holding the dataset).
    pub open spec fn spec_active(&self) -> int {
        self.spec_launched() - self.spec_completed()
    }

    pub closed spec fn wf(&self) -> bool {
        &&& self.statuses@.len() == self.roster_len
        &&& self.roster_len >= 1
        &&& self.concurrency >= 1
        &&& self.completed <= self.next <= self.roster_len
        &&& forall|i: int| 0 <= i < self.roster_len ==>
            (#[trigger] self.statuses@[i] == WalletStatus::Waiting <==> i >= self.next)
        &&& count_status(self.statuses@, WalletStatus::Mining) == self.next - self.completed
        &&& !self.cancelled ==> self.next == min_int(
            self.roster_len as int,
            self.concurrency + self.completed,
        )
    }

    /// Starts a round over `roster_len` identities with at most `concurrency`
    /// workers at once; returns the round and the roster indices to launch.
    pub fn start(roster_len: usize, concurrency: usize) -> (r: Result<(PoolRound, Vec<usize>), PoolError>)
        ensures
            roster_len == 0 ==> r == Err::<(PoolRound, Vec<usize>), PoolError>(PoolError::EmptyRoster),
            roster_len > 0 && concurrency == 0 ==> r == Err::<(PoolRound, Vec<usize>), PoolError>(PoolError::ZeroConcurrency),
            roster_len > 0 && concurrency > 0 ==> r is Ok,
            r is Ok ==> ({
                let (round, launch) = r->Ok_0;
                &&& round.wf()
                &&& round.spec_roster_len() == roster_len
                &&& round.spec_concurrency() == concurrency
                &&& round.spec_completed() == 0
                &&& !round.spec_cancelled()
                &&& round.spec_launched() == min_int(roster_len as int, concurrency as int)
                &&& launch@ == Seq::new(round.spec_launched(), |i: int| i as usize)
                &&& round.spec_statuses() == Seq::new(
                    roster_len as nat,
                    |i: int| if i < round.spec_launched() { WalletStatus::Mining } else { WalletStatus::Waiting },
                )
            }),
    {
        if roster_len == 0 {
            return Err(PoolError::EmptyRoster);
        }
        if concurrency == 0 {
            return Err(PoolError::ZeroConcurrency);
        }
        let first = if concurrency < roster_len { concurrency } else { roster_len };
        let mut statuses: Vec<WalletStatus> = Vec::new();
        let mut launch: Vec<usize> = Vec::new();
        let mut i: usize = 0;
        while i < roster_len
            invariant
                0 <= i <= roster_len,
                first <= roster_len,
                statuses@.len() == i,
                launch@ == Seq::new(min_int(i as int, first as int) as nat, |j: int| j as usize),
                forall|j: int| 0 <= j < i ==>
                    (#[trigger] statuses@[j] == WalletStatus::Waiting <==> j >= first),
                forall|j: int| 0 <= j < i ==>
                    (statuses@[j] == WalletStatus::Mining <==> j < first),
            decreases roster_len - i,
        {
            if i < first {
                statuses.push(WalletStatus::Mining);
                launch.push(i);
            } else {
                statuses.push(WalletStatus::Waiting);
            }
            i = i + 1;
        }
        proof {
            let s = statuses@;
            lemma_count_all(s.subrange(0, first as int), WalletStatus::Mining);
            lemma_count_prefix(s, first as int, WalletStatus::Mining);
            lemma_count_none(s.subrange(first as int, s.len() as int), WalletStatus::Mining);
        }
        assert(statuses@ =~= Seq::new(
            roster_len as nat,
            |i: int| if i < first { WalletStatus::Mining } else { WalletStatus::Waiting },
        ));
        let round = PoolRound {
            roster_len,
            concurrency,
            next: first,
            completed: 0,
            cancelled: false,
            statuses,
        };
        Ok((round, launch))
    }
}

/// Count over a sequence split at `k`.
proof fn lemma_count_prefix(s: Seq<WalletStatus>, k: int, x: WalletStatus)
    requires
        0 <= k <= s.len(),
    ensures
        count_status(s, x) == count_status(s.subrange(0, k), x)
            + count_status(s.subrange(k, s.len() as int), x),
    decreases s.len() - k,
{
    if k == s.len() {
        assert(s.subrange(0, k) =~= s);
        assert(s.subrange(k, s.len() as int).len() == 0);
    } else {
        lemma_count_split_last(s, k, x);
    }
}

proof fn lemma_count_split_last(s: Seq<WalletStatus>, k: int, x: WalletStatus)
    requires
        0 <= k < s.len(),
    ensures
        count_status(s, x) == count_status(s.subrange(0, k), x)
            + count_status(s.subrange(k, s.len() as int), x),
    decreases s.len(),
{
    let n = s.len() as int;
    if k == n - 1 {
        assert(s.subrange(0, k) =~= s.drop_last());
        let t = s.subrange(k, n);
        assert(t.drop_last().len() == 0);
        assert(count_status(t.drop_last(), x) == 0);
        assert(t.last() == s.last());
    } else {
        lemma_count_split_last(s.drop_last(), k, x);
        assert(s.drop_last().subrange(0, k) =~= s.subrange(0, k));
        assert(s.subrange(k, n).drop_last() =~= s.drop_last().subrange(k, n - 1));
        assert(s.subrange(k, n).last() == s.last());
    }
}


/// Status that a finished search leaves on its identity.
pub fn status_for(result: MiningResult) -> (r: WalletStatus)
    ensures
        r == status_after(result),
{
    match result {
        MiningResult::FoundAndQueued => WalletStatus::Solved,
        MiningResult::AlreadySolved => WalletStatus::Skipped,
        MiningResult::MiningFailed => WalletStatus::Failed,
    }
}

/// Number of entries of `s` equal to `x`.
pub fn status_count(s: &Vec<WalletStatus>, x: WalletStatus) -> (r: usize)
    ensures
        r == count_status(s@, x),
{
    let mut n: usize = 0;
    let mut i: usize = 0;
    while i < s.len()
        invariant
            0 <= i <= s@.len(),
            n == count_status(s@.subrange(0, i as int), x),
            n <= i,
        decreases s@.len() - i,
    {
        proof {
            assert(s@.subrange(0, i + 1).drop_last() =~= s@.subrange(0, i as int));
        }
        if s[i] == x {
            n = n + 1;
        }
        i = i + 1;
    }
    proof {
        assert(s@.subrange(0, s@.len() as int) =~= s@);
    }
    n
}

/// `r` lists, in increasing order, exactly the indices of `s` that are mining.
pub open spec fn lists_mining(r: Seq<usize>, s: Seq<WalletStatus>) -> bool {
    &&& forall|j: int| 0 <= j < r.len() ==> (r[j] as int) < s.len() && s[r[j] as int] == WalletStatus::Mining
    &&& forall|i: int| 0 <= i < s.len() && s[i] == WalletStatus::Mining ==> r.contains(i as usize)
    &&& forall|j: int, k: int| 0 <= j < k < r.len() ==> r[j] < r[k]
}

/// Counts of each status at the end of a round.
#[derive(Debug, Clone, Copy, PartialEq, Eq, Structural)]
pub struct RoundSummary {
    pub cancelled: bool,
    pub solved: usize,
    pub skipped: usize,
    pub failed: usize,
}

impl PoolRound {
    pub fn roster_len(&self) -> (r: usize)
        ensures
            r == self.spec_roster_len(),
    {
        self.roster_len
    }

    pub fn concurrency(&self) -> (r: usize)
        ensures
            r == self.spec_concurrency(),
    {
        self.concurrency
    }

    pub fn launched(&self) -> (r: usize)
        ensures
            r == self.spec_launched(),
    {
        self.next
    }

    pub fn completed(&self) -> (r: usize)
        ensures
            r == self.spec_completed(),
    {
        self.completed
    }

    pub fn is_cancelled(&self) -> (r: bool)
        ensures
            r == self.spec_cancelled(),
    {
        self.cancelled
    }

    /// Number of workers launched and not yet reported back.
    pub fn active(&self) -> (r: usize)
        requires
            self.wf(),
        ensures
            r == self.spec_active(),
    {
        self.next - self.completed
    }

    /// Current status of every roster entry.
    pub fn statuses(&self) -> (r: &Vec<WalletStatus>)
        ensures
            r@ == self.spec_statuses(),
    {
        &self.statuses
    }

    /// Records the result of the worker for roster entry `idx`. When that
    /// worker is active, its status follows the result and, unless the round
    /// was cancelled, the next untried entry in roster order is launched in
    /// its slot and returned. A result for an entry with no active worker
    /// changes nothing.
    pub fn on_result(&mut self, idx: usize, result: MiningResult) -> (launch: Option<usize>)
        requires
            old(self).wf(),
        ensures
            final(self).wf(),
            final(self).spec_roster_len() == old(self).spec_roster_len(),
            final(self).spec_concurrency() == old(self).spec_concurrency(),
            final(self).spec_cancelled() == old(self).spec_cancelled(),
            ({
                let accepted = (idx as int) < old(self).spec_roster_len()
                    && old(self).spec_statuses()[idx as int] == WalletStatus::Mining;
                let refill = !old(self).spec_cancelled() && old(self).spec_launched() < old(self).spec_roster_len();
                let recorded = old(self).spec_statuses().update(idx as int, status_after(result));
                &&& accepted ==> final(self).spec_completed() == old(self).spec_completed() + 1
                &&& accepted && refill ==> launch == Some(old(self).spec_launched() as usize)
                    && final(self).spec_launched() == old(self).spec_launched() + 1
                    && final(self).spec_statuses() == recorded.update(old(self).spec_launched() as int, WalletStatus::Mining)
                &&& accepted && !refill ==> launch is None
                    && final(self).spec_launched() == old(self).spec_launched()
                    && final(self).spec_statuses() == recorded
                &&& !accepted ==> launch is None && *final(self) == *old(self)
            }),
    {
        if idx >= self.roster_len || self.statuses[idx] != WalletStatus::Mining {
            return None;
        }
        let ghost s0 = self.statuses@;
        let st = status_for(result);
        self.statuses.set(idx, st);
        proof {
            lemma_count_update(s0, idx as int, st, WalletStatus::Mining);
        }
        self.completed = self.completed + 1;
        if !self.cancelled && self.next < self.roster_len {
            let j = self.next;
            let ghost s1 = self.statuses@;
            self.statuses.set(j, WalletStatus::Mining);
            proof {
                lemma_count_update(s1, j as int, WalletStatus::Mining, WalletStatus::Mining);
            }
            self.next = self.next + 1;
            Some(j)
        } else {
            None
        }
    }

    /// Cancels the round after a challenge rotation: nothing more is launched.
    /// Returns the roster entries whose workers must be told to stop.
    pub fn cancel(&mut self) -> (stop: Vec<usize>)
        requires
            old(self).wf(),
        ensures
            final(self).wf(),
            final(self).spec_cancelled(),
            final(self).spec_roster_len() == old(self).spec_roster_len(),
            final(self).spec_concurrency() == old(self).spec_concurrency(),
            final(self).spec_launched() == old(self).spec_launched(),
            final(self).spec_completed() == old(self).spec_completed(),
            final(self).spec_statuses() == old(self).spec_statuses(),
            lists_mining(stop@, old(self).spec_statuses()),
            stop@.len() == old(self).spec_active(),
    {
        let stop = self.mining_indices();
        self.cancelled = true;
        stop
    }

    fn mining_indices(&self) -> (r: Vec<usize>)
        requires
            self.wf(),
        ensures
            lists_mining(r@, self.spec_statuses()),
            r@.len() == self.spec_active(),
    {
        let mut r: Vec<usize> = Vec::new();
        let mut i: usize = 0;
        while i < self.roster_len
            invariant
                self.wf(),
                0 <= i <= self.roster_len,
                r@.len() == count_status(self.statuses@.subrange(0, i as int), WalletStatus::Mining),
                forall|j: int| 0 <= j < r@.len() ==> r@[j] < i && self.statuses@[r@[j] as int] == WalletStatus::Mining,
                forall|k: int| 0 <= k < i && self.statuses@[k] == WalletStatus::Mining ==> r@.contains(k as usize),
                forall|j: int, k: int| 0 <= j < k < r@.len() ==> r@[j] < r@[k],
            decreases self.roster_len - i,
        {
            proof {
                assert(self.statuses@.subrange(0, i + 1).drop_last() =~= self.statuses@.subrange(0, i as int));
            }
            if self.statuses[i] == WalletStatus::Mining {
                let ghost r0 = r@;
                r.push(i);
                proof {
                    assert(r@[r@.len() - 1] == i);
                    assert forall|k: int| 0 <= k < i && self.statuses@[k] == WalletStatus::Mining implies r@.contains(k as usize) by {
                        let w = choose|w: int| 0 <= w < r0.len() && r0[w] == k as usize;
                        assert(r@[w] == k as usize);
                    }
                }
            }
            i = i + 1;
        }
        proof {
            assert(self.statuses@.subrange(0, self.roster_len as int) =~= self.statuses@);
        }
        r
    }

    /// After cancellation, gives up waiting on the workers still active: they
    /// are marked failed, and returned so that the caller joins them before
    /// anything else happens.
    pub fn abandon_remaining(&mut self) -> (join: Vec<usize>)
        requires
            old(self).wf(),
            old(self).spec_cancelled(),
        ensures
            final(self).wf(),
            final(self).spec_cancelled(),
            final(self).spec_roster_len() == old(self).spec_roster_len(),
            final(self).spec_launched() == old(self).spec_launched(),
            final(self).spec_active() == 0,
            lists_mining(join@, old(self).spec_statuses()),
            final(self).spec_statuses().len() == old(self).spec_statuses().len(),
            forall|i: int| 0 <= i < old(self).spec_statuses().len() ==>
                #[trigger] final(self).spec_statuses()[i] == if old(self).spec_statuses()[i] == WalletStatus::Mining {
                    WalletStatus::Failed
                } else {
                    old(self).spec_statuses()[i]
                },
    {
        let join = self.mining_indices();
        let ghost s0 = self.statuses@;
        let ghost before = *self;
        let mut i: usize = 0;
        while i < self.roster_len
            invariant
                0 <= i <= self.roster_len,
                self.cancelled == before.cancelled,
                self.next == before.next,
                self.completed == before.completed,
                self.roster_len == before.roster_len,
                self.concurrency == before.concurrency,
                self.statuses@.len() == s0.len(),
                s0.len() == self.roster_len,
                forall|j: int| 0 <= j < s0.len() ==>
                    #[trigger] self.statuses@[j] == if j < i && s0[j] == WalletStatus::Mining {
                        WalletStatus::Failed
                    } else {
                        s0[j]
                    },
            decreases self.roster_len - i,
        {
            if self.statuses[i] == WalletStatus::Mining {
                self.statuses.set(i, WalletStatus::Failed);
            }
            i = i + 1;
        }
        self.completed = self.next;
        proof {
            lemma_count_none(self.statuses@, WalletStatus::Mining);
            assert forall|j: int| 0 <= j < self.roster_len implies
                (#[trigger] self.statuses@[j] == WalletStatus::Waiting <==> j >= self.next) by {
                assert(self.statuses@[j] == WalletStatus::Waiting <==> s0[j] == WalletStatus::Waiting);
            }
        }
        join
    }

    /// Whether every launched worker has reported back or been joined, so
    /// that the round's dataset may be released.
    pub fn is_finished(&self) -> (r: bool)
        requires
            self.wf(),
        ensures
            r == (self.spec_active() == 0),
    {
        self.next == self.completed
    }

    /// Closes a finished round and sums up its statuses.
    pub fn close(self) -> (r: RoundSummary)
        requires
            self.wf(),
            self.spec_active() == 0,
        ensures
            r.cancelled == self.spec_cancelled(),
            r.solved == count_status(self.spec_statuses(), WalletStatus::Solved),
            r.skipped == count_status(self.spec_statuses(), WalletStatus::Skipped),
            r.failed == count_status(self.spec_statuses(), WalletStatus::Failed),
    {
        RoundSummary {
            cancelled: self.cancelled,
            solved: status_count(&self.statuses, WalletStatus::Solved),
            skipped: status_count(&self.statuses, WalletStatus::Skipped),
            failed: status_count(&self.statuses, WalletStatus::Failed),
        }
    }
}

/// Shape of every round: one status per roster entry, the untried entries
/// (and only they) waiting, and one entry mining per active worker.
pub proof fn lemma_round_shape(r: PoolRound)
    requires
        r.wf(),
    ensures
        r.spec_statuses().len() == r.spec_roster_len(),
        r.spec_completed() <= r.spec_launched() <= r.spec_roster_len(),
        forall|i: int| 0 <= i < r.spec_roster_len() ==>
            (r.spec_statuses()[i] == WalletStatus::Waiting <==> i >= r.spec_launched()),
        count_status(r.spec_statuses(), WalletStatus::Mining) == r.spec_active(),
{
}

/// Occupancy of an uncancelled round: exactly `min(K, N - completed)` workers
/// are active, so the limit is reached while at least K identities remain,
/// and some worker is always active until all N have reported back.
pub proof fn lemma_pool_occupancy(r: PoolRound)
    requires
        r.wf(),
        !r.spec_cancelled(),
    ensures
        r.spec_active() == min_int(
            r.spec_concurrency() as int,
            r.spec_roster_len() - r.spec_completed(),
        ),
        r.spec_completed() < r.spec_roster_len() ==> r.spec_active() >= 1,
        r.spec_active() == 0 <==> r.spec_completed() == r.spec_roster_len(),
{
}

/// When an uncancelled round is finished, every identity of the roster has
/// reported exactly one result: none is waiting and none is mining.
pub proof fn lemma_pool_completes_roster(r: PoolRound)
    requires
        r.wf(),
        !r.spec_cancelled(),
        r.spec_active() == 0,
    ensures
        r.spec_completed() == r.spec_roster_len(),
        forall|i: int| 0 <= i < r.spec_roster_len() ==>
            r.spec_statuses()[i] != WalletStatus::Waiting && r.spec_statuses()[i] != WalletStatus::Mining,
{
    lemma_count_zero(r.spec_statuses(), WalletStatus::Mining);
}

/// A finished round, cancelled or not, has no worker left mining: the
/// dataset is released only after every worker of the round was joined.
pub proof fn lemma_finished_round_has_no_worker(r: PoolRound)
    requires
        r.wf(),
        r.spec_active() == 0,
    ensures
        forall|i: int| 0 <= i < r.spec_roster_len() ==> r.spec_statuses()[i] != WalletStatus::Mining,
{
    lemma_count_zero(r.spec_statuses(), WalletStatus::Mining);
}

} // verus!

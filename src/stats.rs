//! The data shown on the wallet-pool dashboard: status counts, reward
//! estimates in micro-units, and the countdown to the next challenge.

use vstd::prelude::*;
use crate::pool::{count_status, status_count, WalletStatus};

verus! {

/// Seconds since the Unix epoch of an RFC 3339 timestamp, as read by
/// chrono; `None` when the text is not RFC 3339.
pub uninterp spec fn rfc3339_seconds(s: Seq<char>) -> Option<i64>;

/// Relies on `chrono::DateTime::parse_from_rfc3339` and `DateTime::timestamp`:
/// the result depends on the text alone.
#[verifier::external_body]
fn parse_rfc3339(s: &str) -> (r: Option<i64>)
    ensures
        r == rfc3339_seconds(s@),
{
    match chrono::DateTime::parse_from_rfc3339(s) {
        Ok(t) => Some(t.timestamp()),
        Err(_) => None,
    }
}

/// How much of each status a roster shows.
#[derive(Debug, Clone, Copy, PartialEq, Eq, Structural)]
pub struct StatusCounts {
    pub total: usize,
    pub waiting: usize,
    pub mining: usize,
    pub solved: usize,
    pub failed: usize,
    pub skipped: usize,
}

/// Counts the statuses of a roster.
pub fn status_counts(statuses: &Vec<WalletStatus>) -> (r: StatusCounts)
    ensures
        r.total == statuses@.len(),
        r.waiting == count_status(statuses@, WalletStatus::Waiting),
        r.mining == count_status(statuses@, WalletStatus::Mining),
        r.solved == count_status(statuses@, WalletStatus::Solved),
        r.failed == count_status(statuses@, WalletStatus::Failed),
        r.skipped == count_status(statuses@, WalletStatus::Skipped),
{
    StatusCounts {
        total: statuses.len(),
        waiting: status_count(statuses, WalletStatus::Waiting),
        mining: status_count(statuses, WalletStatus::Mining),
        solved: status_count(statuses, WalletStatus::Solved),
        failed: status_count(statuses, WalletStatus::Failed),
        skipped: status_count(statuses, WalletStatus::Skipped),
    }
}

/// Sum of a sequence of counters.
pub open spec fn sum_u32(s: Seq<u32>) -> nat
    decreases s.len(),
{
    if s.len() == 0 { 0 } else { sum_u32(s.drop_last()) + (s.last() as nat) }
}

/// Total of the per-identity solved counts.
pub fn total_solved(counts: &Vec<u32>) -> (r: u128)
    ensures
        r == sum_u32(counts@),
{
    let mut total: u128 = 0;
    let mut i: usize = 0;
    while i < counts.len()
        invariant
            0 <= i <= counts@.len(),
            total == sum_u32(counts@.subrange(0, i as int)),
            total <= i * (u32::MAX as int),
        decreases counts@.len() - i,
    {
        proof {
            assert(counts@.subrange(0, i + 1).drop_last() =~= counts@.subrange(0, i as int));
            assert(i * (u32::MAX as int) + u32::MAX as int <= u128::MAX) by (nonlinear_arith)
                requires
                    i < usize::MAX,
            ;
            assert((i + 1) * (u32::MAX as int) == i * (u32::MAX as int) + u32::MAX as int) by (nonlinear_arith);
        }
        total = total + counts[i] as u128;
        i = i + 1;
    }
    proof {
        assert(counts@.subrange(0, counts@.len() as int) =~= counts@);
    }
    total
}

/// Reward per solution, in micro-units, for the challenge's day: that
/// day's reward (from a table indexed by day, starting at day one)
/// divided among the network's recent solutions. `None` when the day is
/// not in the table or no solution was recorded.
pub fn reward_per_solution(rates: &Vec<u64>, day: u8, recent_solutions: u64) -> (r: Option<u64>)
    ensures
        ({
            let idx = if day == 0 { 0int } else { day - 1 };
            &&& r is Some <==> idx < rates@.len() && recent_solutions > 0
            &&& r is Some ==> r->Some_0 == rates@[idx] / recent_solutions
        }),
{
    let idx: usize = if day == 0 { 0 } else { (day - 1) as usize };
    if idx < rates.len() && recent_solutions > 0 {
        Some(rates[idx] / recent_solutions)
    } else {
        None
    }
}

/// Time left until the next challenge, as shown on the dashboard.
#[derive(Debug, Clone, Copy, PartialEq, Eq, Structural)]
pub enum NextChallenge {
    /// The coordinator announced no next challenge.
    NotAnnounced,
    /// The announced time could not be read.
    Unreadable,
    /// The announced time has come.
    Now,
    /// Whole minutes and remaining seconds still to wait.
    In { minutes: u64, seconds: u64 },
}

/// Countdown from `now` (seconds since the epoch) to `start`, when known.
pub open spec fn countdown_spec(start: Option<i64>, now: i64) -> NextChallenge {
    match start {
        None => NextChallenge::Unreadable,
        Some(t) => if t - now > 0 {
            NextChallenge::In { minutes: ((t - now) / 60) as u64, seconds: ((t - now) % 60) as u64 }
        } else {
            NextChallenge::Now
        },
    }
}

/// Countdown from `now` to an already parsed start time (`None`: unreadable).
pub fn countdown_from(start: Option<i64>, now: i64) -> (r: NextChallenge)
    ensures
        r == countdown_spec(start, now),
{
    match start {
        None => NextChallenge::Unreadable,
        Some(t) => {
            let diff: i128 = t as i128 - now as i128;
            if diff > 0 {
                let m = diff / 60;
                let s = diff % 60;
                NextChallenge::In { minutes: m as u64, seconds: s as u64 }
            } else {
                NextChallenge::Now
            }
        },
    }
}

/// Countdown from `now` to the announced start of the next challenge,
/// given as RFC 3339 text.
pub fn next_challenge_countdown(announced: &Option<String>, now: i64) -> (r: NextChallenge)
    ensures
        announced is None ==> r == NextChallenge::NotAnnounced,
        announced is Some ==> r == countdown_spec(rfc3339_seconds(announced->Some_0@), now),
{
    match announced {
        None => NextChallenge::NotAnnounced,
        Some(text) => countdown_from(parse_rfc3339(text.as_str()), now),
    }
}

/// Per-identity figures shown on the dashboard.
pub struct WalletStats {
    pub name: String,
    pub address: String,
    pub solved_count: u32,
    pub reward_micro: u64,
}

/// Snapshot behind the dashboard of one pool round.
pub struct LiveStats {
    pub wallets: Vec<WalletStats>,
    pub statuses: Vec<WalletStatus>,
    pub challenge_id: String,
    pub deadline: String,
    pub day: u8,
    pub next_challenge: Option<String>,
    pub network_solutions: u32,
    pub reward_per_solution: Option<u64>,
}

impl LiveStats {
    /// Stores fresh figures of identity `i`; other identities are untouched.
    /// An index out of range changes nothing.
    pub fn refresh_wallet(&mut self, i: usize, solved_count: u32, reward_micro: u64)
        ensures
            final(self).statuses == old(self).statuses,
            final(self).network_solutions == old(self).network_solutions,
            final(self).reward_per_solution == old(self).reward_per_solution,
            final(self).wallets@.len() == old(self).wallets@.len(),
            forall|j: int| 0 <= j < old(self).wallets@.len() && j != i ==> final(self).wallets@[j] == old(self).wallets@[j],
            (i as int) < old(self).wallets@.len() ==> ({
                let w = final(self).wallets@[i as int];
                &&& w.name == old(self).wallets@[i as int].name
                &&& w.address == old(self).wallets@[i as int].address
                &&& w.solved_count == solved_count
                &&& w.reward_micro == reward_micro
            }),
    {
        if i < self.wallets.len() {
            let w = WalletStats {
                name: self.wallets[i].name.clone(),
                address: self.wallets[i].address.clone(),
                solved_count,
                reward_micro,
            };
            self.wallets.set(i, w);
        }
    }

    /// Stores the network's recent solution count and, when the reward table
    /// gives one, the reward per solution; otherwise the last reward stays.
    pub fn refresh_network(&mut self, recent_solutions: u32, rates: &Vec<u64>)
        ensures
            final(self).network_solutions == recent_solutions,
            final(self).wallets == old(self).wallets,
            final(self).statuses == old(self).statuses,
            ({
                let idx = if old(self).day == 0 { 0int } else { old(self).day - 1 };
                final(self).reward_per_solution == if idx < rates@.len() && recent_solutions > 0 {
                    Some((rates@[idx] / recent_solutions as u64) as u64)
                } else {
                    old(self).reward_per_solution
                }
            }),
    {
        self.network_solutions = recent_solutions;
        match reward_per_solution(rates, self.day, recent_solutions as u64) {
            Some(r) => self.reward_per_solution = Some(r),
            None => {},
        }
    }

    /// Sum of the identities' rewards, in micro-units.
    pub fn total_reward(&self) -> (r: u128)
        ensures
            r == sum_rewards(self.wallets@),
    {
        let mut total: u128 = 0;
        let mut i: usize = 0;
        while i < self.wallets.len()
            invariant
                0 <= i <= self.wallets@.len(),
                total == sum_rewards(self.wallets@.subrange(0, i as int)),
                total <= i * (u64::MAX as int),
            decreases self.wallets@.len() - i,
        {
            proof {
                assert(self.wallets@.subrange(0, i + 1).drop_last() =~= self.wallets@.subrange(0, i as int));
                assert(i * (u64::MAX as int) + u64::MAX as int <= u128::MAX) by (nonlinear_arith)
                    requires
                        i < usize::MAX,
                ;
                assert((i + 1) * (u64::MAX as int) == i * (u64::MAX as int) + u64::MAX as int) by (nonlinear_arith);
            }
            total = total + self.wallets[i].reward_micro as u128;
            i = i + 1;
        }
        proof {
            assert(self.wallets@.subrange(0, self.wallets@.len() as int) =~= self.wallets@);
        }
        total
    }
}

/// Sum of the rewards of a list of identities.
pub open spec fn sum_rewards(s: Seq<WalletStats>) -> nat
    decreases s.len(),
{
    if s.len() == 0 { 0 } else { sum_rewards(s.drop_last()) + (s.last().reward_micro as nat) }
}

} // verus!

//! The identity roster: planning the generation of new entries, their
//! names, the short form of addresses, and the tally of a donation run.

use vstd::prelude::*;
use crate::layout::{decimal, decimal_text};
use crate::sequence::seq_max;
use crate::text::{is_donation_conflict, is_donation_conflict_spec};

verus! {

/// Most entries generated in one run.
pub const MAX_GENERATE: usize = 1000;

/// Why entries cannot be generated.
#[derive(Debug, Clone, Copy, PartialEq, Eq, Structural)]
pub enum RosterError {
    /// Zero entries were asked for.
    ZeroCount,
    /// More than `MAX_GENERATE` entries were asked for.
    TooMany,
    /// The new ids would run past `u32::MAX`.
    IdsExhausted,
}

/// Ids for a batch of new entries: `first_id`, `first_id + 1`, ...
#[derive(Debug, Clone, Copy, PartialEq, Eq, Structural)]
pub struct GenerationPlan {
    pub first_id: u32,
    pub count: u32,
}

/// Highest id in use, or 0 for an empty roster.
pub open spec fn highest_id(ids: Seq<u32>) -> nat {
    if ids.len() == 0 { 0 } else { seq_max(ids) as nat }
}

/// Plans `count` new entries after the existing ones: they are numbered on
/// from one past the highest existing id (from 1 for an empty roster).
pub fn plan_generation(existing_ids: &Vec<u32>, count: usize) -> (r: Result<GenerationPlan, RosterError>)
    ensures
        count == 0 ==> r == Err::<GenerationPlan, RosterError>(RosterError::ZeroCount),
        count > MAX_GENERATE ==> r == Err::<GenerationPlan, RosterError>(RosterError::TooMany),
        1 <= count <= MAX_GENERATE && highest_id(existing_ids@) + count > u32::MAX
            ==> r == Err::<GenerationPlan, RosterError>(RosterError::IdsExhausted),
        1 <= count <= MAX_GENERATE && highest_id(existing_ids@) + count <= u32::MAX ==> r == Ok::<GenerationPlan, RosterError>(
            GenerationPlan { first_id: (highest_id(existing_ids@) + 1) as u32, count: count as u32 },
        ),
{
    if count == 0 {
        return Err(RosterError::ZeroCount);
    }
    if count > MAX_GENERATE {
        return Err(RosterError::TooMany);
    }
    let mut high: u32 = 0;
    if existing_ids.len() > 0 {
        high = existing_ids[0];
        let mut i: usize = 1;
        while i < existing_ids.len()
            invariant
                1 <= i <= existing_ids@.len(),
                high == seq_max(existing_ids@.subrange(0, i as int)),
            decreases existing_ids@.len() - i,
        {
            proof {
                assert(existing_ids@.subrange(0, i + 1).drop_last() =~= existing_ids@.subrange(0, i as int));
            }
            if existing_ids[i] > high {
                high = existing_ids[i];
            }
            i = i + 1;
        }
        proof {
            assert(existing_ids@.subrange(0, existing_ids@.len() as int) =~= existing_ids@);
        }
    }
    if high as u64 + count as u64 > u32::MAX as u64 {
        return Err(RosterError::IdsExhausted);
    }
    Ok(GenerationPlan { first_id: high + 1, count: count as u32 })
}

/// Display name of a generated entry.
pub fn wallet_name(id: u32) -> (r: String)
    ensures
        r@ == "Wallet "@ + decimal(id as nat),
{
    let mut s = String::from_str("Wallet ");
    let d = decimal_text(id);
    s.append(d.as_str());
    s
}

/// Short form of an address for display: longer than 20 characters, it
/// keeps the first 10 and the last 8 around "...".
pub open spec fn short_address_spec(a: Seq<char>) -> Seq<char> {
    if a.len() > 20 {
        a.subrange(0, 10) + "..."@ + a.subrange(a.len() - 8, a.len() as int)
    } else {
        a
    }
}

/// Short form of an address for display.
pub fn short_address(a: &str) -> (r: String)
    ensures
        r@ == short_address_spec(a@),
{
    let n = a.unicode_len();
    if n > 20 {
        let mut s = String::from_str(a.substring_char(0, 10));
        s.append("...");
        s.append(a.substring_char(n - 8, n));
        s
    } else {
        String::from_str(a)
    }
}

/// Results of setting up donations for a whole roster.
#[derive(Debug, Clone, Copy, PartialEq, Eq, Structural)]
pub struct DonationTally {
    pub donated: usize,
    pub already: usize,
    pub failed: usize,
}

/// How one donation request ended.
#[derive(Debug, Clone, Copy, PartialEq, Eq, Structural)]
pub enum DonationOutcome {
    Donated,
    AlreadyDonated,
    Failed,
}

/// Classifies the coordinator's answer to a donation request: a conflict
/// means the donation is already in place, which is no failure.
pub fn classify_donation(response: &Result<String, String>) -> (r: DonationOutcome)
    ensures
        r == match response {
            Ok(_) => DonationOutcome::Donated,
            Err(msg) => if is_donation_conflict_spec(msg@) {
                DonationOutcome::AlreadyDonated
            } else {
                DonationOutcome::Failed
            },
        },
{
    match response {
        Ok(_) => DonationOutcome::Donated,
        Err(msg) => if is_donation_conflict(msg.as_str()) {
            DonationOutcome::AlreadyDonated
        } else {
            DonationOutcome::Failed
        },
    }
}

impl DonationTally {
    pub fn new() -> (r: DonationTally)
        ensures
            r == (DonationTally { donated: 0, already: 0, failed: 0 }),
    {
        DonationTally { donated: 0, already: 0, failed: 0 }
    }

    /// Counts one outcome (each count stops at `usize::MAX`).
    pub fn record(&mut self, outcome: DonationOutcome)
        ensures
            final(self).donated == old(self).donated + if outcome == DonationOutcome::Donated && old(self).donated < usize::MAX { 1int } else { 0int },
            final(self).already == old(self).already + if outcome == DonationOutcome::AlreadyDonated && old(self).already < usize::MAX { 1int } else { 0int },
            final(self).failed == old(self).failed + if outcome == DonationOutcome::Failed && old(self).failed < usize::MAX { 1int } else { 0int },
    {
        match outcome {
            DonationOutcome::Donated => if self.donated < usize::MAX { self.donated = self.donated + 1; },
            DonationOutcome::AlreadyDonated => if self.already < usize::MAX { self.already = self.already + 1; },
            DonationOutcome::Failed => if self.failed < usize::MAX { self.failed = self.failed + 1; },
        }
    }

    /// Whether every entry ended up donating.
    pub fn all_configured(&self) -> (r: bool)
        ensures
            r == (self.failed == 0),
    {
        self.failed == 0
    }
}

} // verus!

//! Substring tests used to classify error messages of the remote coordinator.

use vstd::prelude::*;

verus! {

/// `needle` occurs in `hay` starting at position `i`.
pub open spec fn occurs_at(hay: Seq<char>, needle: Seq<char>, i: int) -> bool {
    0 <= i && i + needle.len() <= hay.len() && hay.subrange(i, i + needle.len()) == needle
}

/// `needle` occurs somewhere in `hay`.
pub open spec fn has_substring(hay: Seq<char>, needle: Seq<char>) -> bool {
    exists|i: int| occurs_at(hay, needle, i)
}

fn occurs_here(hay: &str, needle: &str, i: usize) -> (r: bool)
    requires
        i + needle@.len() <= hay@.len(),
    ensures
        r == occurs_at(hay@, needle@, i as int),
{
    let n = needle.unicode_len();
    let h = hay.unicode_len();
    let mut j: usize = 0;
    while j < n
        invariant
            n == needle@.len(),
            h == hay@.len(),
            i + n <= hay@.len(),
            0 <= j <= n,
            forall|k: int| 0 <= k < j ==> hay@[i + k] == needle@[k],
        decreases n - j,
    {
        if hay.get_char(i + j) != needle.get_char(j) {
            proof {
                assert(hay@.subrange(i as int, i + n)[j as int] != needle@[j as int]);
            }
            return false;
        }
        j = j + 1;
    }
    assert(hay@.subrange(i as int, i + n) =~= needle@);
    true
}

/// Whether `needle` occurs in `hay`.
pub fn contains_text(hay: &str, needle: &str) -> (r: bool)
    ensures
        r == has_substring(hay@, needle@),
{
    let h = hay.unicode_len();
    let n = needle.unicode_len();
    if n > h {
        proof {
            assert forall|i: int| !occurs_at(hay@, needle@, i) by {}
        }
        return false;
    }
    if n == 0 {
        assert(hay@.subrange(0, 0) =~= needle@);
        assert(occurs_at(hay@, needle@, 0));
        return true;
    }
    let mut i: usize = 0;
    while i <= h - n
        invariant
            h == hay@.len(),
            n == needle@.len(),
            1 <= n <= h,
            0 <= i <= h - n + 1,
            forall|k: int| 0 <= k < i ==> !occurs_at(hay@, needle@, k),
        decreases h - n + 1 - i,
    {
        if occurs_here(hay, needle, i) {
            return true;
        }
        i = i + 1;
    }
    proof {
        assert forall|k: int| !occurs_at(hay@, needle@, k) by {
            if 0 <= k < i {
            }
        }
    }
    false
}

/// A failure at the network layer (as opposed to a rejection by the
/// coordinator) is reported with this phrase.
pub open spec fn is_network_failure_spec(msg: Seq<char>) -> bool {
    has_substring(msg, "API request failed"@)
}

/// Whether an error message reports a network-layer failure.
pub fn is_network_failure(msg: &str) -> (r: bool)
    ensures
        r == is_network_failure_spec(msg@),
{
    contains_text(msg, "API request failed")
}

/// A registration refused as a bad request: the address is already registered.
pub open spec fn is_repeat_registration_spec(msg: Seq<char>) -> bool {
    has_substring(msg, "400"@) || has_substring(msg, "Bad Request"@)
}

/// Whether a registration error only says that the address is already
/// registered, which is not fatal.
pub fn is_repeat_registration(msg: &str) -> (r: bool)
    ensures
        r == is_repeat_registration_spec(msg@),
{
    contains_text(msg, "400") || contains_text(msg, "Bad Request")
}

/// A donation refused because it is already configured.
pub open spec fn is_donation_conflict_spec(msg: Seq<char>) -> bool {
    has_substring(msg, "409"@) || has_substring(msg, "Conflict"@) || has_substring(msg, "already"@)
}

/// Whether a donation error only says that the donation is already set up.
pub fn is_donation_conflict(msg: &str) -> (r: bool)
    ensures
        r == is_donation_conflict_spec(msg@),
{
    contains_text(msg, "409") || contains_text(msg, "Conflict") || contains_text(msg, "already")
}

} // verus!

//! Difficulty targets and the leading-zero-bit rule that a hash must meet.

use vstd::prelude::*;

verus! {

/// Outside error type produced by `hex::decode`.
#[verifier::external_type_specification]
#[verifier::external_body]
pub struct ExFromHexError(hex::FromHexError);

/// A character that `hex::decode` accepts as a digit (either case).
pub open spec fn is_hex_digit(c: char) -> bool {
    ('0' <= c && c <= '9') || ('a' <= c && c <= 'f') || ('A' <= c && c <= 'F')
}

/// Value of a hex digit.
pub open spec fn hex_value(c: char) -> int {
    if '0' <= c && c <= '9' {
        c as int - '0' as int
    } else if 'a' <= c && c <= 'f' {
        c as int - 'a' as int + 10
    } else {
        c as int - 'A' as int + 10
    }
}

/// Text that decodes as hex: an even number of hex digits.
pub open spec fn is_hex_text(s: Seq<char>) -> bool {
    &&& s.len() % 2 == 0
    &&& forall|i: int| 0 <= i < s.len() ==> is_hex_digit(#[trigger] s[i])
}

/// The bytes that a hex text stands for, two digits per byte, high digit first.
pub open spec fn hex_bytes(s: Seq<char>) -> Seq<u8> {
    Seq::new(
        s.len() / 2,
        |i: int| (16 * hex_value(s[2 * i]) + hex_value(s[2 * i + 1])) as u8,
    )
}

/// Relies on `hex::decode`: it succeeds exactly on an even number of hex
/// digits (either case) and yields one byte per pair, high digit first.
#[verifier::external_body]
fn decode_hex(s: &str) -> (r: Result<Vec<u8>, hex::FromHexError>)
    ensures
        r is Ok <==> is_hex_text(s@),
        r is Ok ==> r->Ok_0@ == hex_bytes(s@),
{
    hex::decode(s)
}

/// Number of leading zero bits of one byte.
pub open spec fn byte_leading_zeros(b: u8) -> nat {
    if b >= 128 {
        0
    } else if b >= 64 {
        1
    } else if b >= 32 {
        2
    } else if b >= 16 {
        3
    } else if b >= 8 {
        4
    } else if b >= 4 {
        5
    } else if b >= 2 {
        6
    } else if b >= 1 {
        7
    } else {
        8
    }
}

/// Leading zero bits of a byte string: eight for each zero byte, then the
/// leading zeros of the first non-zero byte.
pub open spec fn leading_zero_bits(h: Seq<u8>) -> nat
    decreases h.len(),
{
    if h.len() == 0 {
        0
    } else if h[0] == 0 {
        8 + leading_zero_bits(h.drop_first())
    } else {
        byte_leading_zeros(h[0])
    }
}

/// Why a difficulty target was refused.
#[derive(Debug, Clone, Copy, PartialEq, Eq)]
pub enum DifficultyError {
    /// The target text is empty.
    Empty,
    /// The target text is not an even number of hex digits.
    Malformed,
}

/// The zero-bit requirement of a hex target, when it is a valid one.
pub open spec fn target_zero_bits(target: Seq<char>) -> Option<nat> {
    if target.len() == 0 || !is_hex_text(target) {
        None
    } else {
        Some(leading_zero_bits(hex_bytes(target)))
    }
}

proof fn lemma_leading_zero_bits_bound(h: Seq<u8>)
    ensures
        leading_zero_bits(h) <= 8 * h.len(),
    decreases h.len(),
{
    if h.len() > 0 && h[0] == 0 {
        lemma_leading_zero_bits_bound(h.drop_first());
    }
}

proof fn lemma_leading_zero_bits_skip(h: Seq<u8>, k: int)
    requires
        0 <= k <= h.len(),
        forall|j: int| 0 <= j < k ==> h[j] == 0,
    ensures
        leading_zero_bits(h) == 8 * k + leading_zero_bits(h.subrange(k, h.len() as int)),
    decreases k,
{
    if k > 0 {
        assert(h.drop_first() =~= h.subrange(1, h.len() as int));
        let t = h.drop_first();
        assert forall|j: int| 0 <= j < k - 1 implies t[j] == 0 by {
            assert(t[j] == h[j + 1]);
        }
        lemma_leading_zero_bits_skip(t, k - 1);
        assert(t.subrange(k - 1, t.len() as int) =~= h.subrange(k, h.len() as int));
    } else {
        assert(h.subrange(0, h.len() as int) =~= h);
    }
}

fn byte_zero_bits(b: u8) -> (r: u32)
    ensures
        r == byte_leading_zeros(b),
{
    if b >= 128 {
        0
    } else if b >= 64 {
        1
    } else if b >= 32 {
        2
    } else if b >= 16 {
        3
    } else if b >= 8 {
        4
    } else if b >= 4 {
        5
    } else if b >= 2 {
        6
    } else if b >= 1 {
        7
    } else {
        8
    }
}

/// Leading zero bits of a byte string, as defined by `leading_zero_bits`.
pub fn count_leading_zero_bits(h: &[u8]) -> (r: usize)
    requires
        h@.len() <= usize::MAX / 8,
    ensures
        r == leading_zero_bits(h@),
{
    let mut i: usize = 0;
    while i < h.len() && h[i] == 0
        invariant
            0 <= i <= h@.len(),
            h@.len() <= usize::MAX / 8,
            forall|j: int| 0 <= j < i ==> h@[j] == 0,
        decreases h@.len() - i,
    {
        i = i + 1;
    }
    proof {
        lemma_leading_zero_bits_skip(h@, i as int);
    }
    let rest = Ghost(h@.subrange(i as int, h@.len() as int));
    if i == h.len() {
        assert(rest@.len() == 0);
        8 * i
    } else {
        assert(rest@[0] == h@[i as int]);
        let b = byte_zero_bits(h[i]);
        8 * i + b as usize
    }
}

/// Zero bits that a hex-encoded difficulty target asks of a hash: the
/// target's own leading zero bits. An empty or non-hex target is refused.
pub fn difficulty_to_zero_bits(difficulty_hex: &str) -> (r: Result<usize, DifficultyError>)
    requires
        difficulty_hex@.len() <= usize::MAX / 4,
    ensures
        difficulty_hex@.len() == 0 ==> r == Err::<usize, DifficultyError>(DifficultyError::Empty),
        difficulty_hex@.len() > 0 && !is_hex_text(difficulty_hex@) ==> r == Err::<usize, DifficultyError>(DifficultyError::Malformed),
        r is Ok <==> target_zero_bits(difficulty_hex@) is Some,
        r is Ok ==> r->Ok_0 == target_zero_bits(difficulty_hex@)->Some_0,
{
    let n = difficulty_hex.unicode_len();
    if n == 0 {
        return Err(DifficultyError::Empty);
    }
    match decode_hex(difficulty_hex) {
        Ok(bytes) => {
            let z = count_leading_zero_bits(bytes.as_slice());
            Ok(z)
        },
        Err(_) => Err(DifficultyError::Malformed),
    }
}

/// Whether a hash has at least `zero_bits` leading zero bits: the first
/// `zero_bits / 8` bytes are zero and the top `zero_bits % 8` bits of the
/// next byte are zero.
pub fn hash_structure_good(hash: &[u8], zero_bits: usize) -> (r: bool)
    ensures
        r == (leading_zero_bits(hash@) >= zero_bits),
{
    let full_bytes = zero_bits / 8;
    let remaining_bits = zero_bits % 8;
    if hash.len() < full_bytes {
        proof {
            lemma_leading_zero_bits_bound(hash@);
        }
        return false;
    }
    let mut i: usize = 0;
    while i < full_bytes
        invariant
            0 <= i <= full_bytes <= hash@.len(),
            full_bytes == zero_bits / 8,
            remaining_bits == zero_bits % 8,
            forall|j: int| 0 <= j < i ==> hash@[j] == 0,
        decreases full_bytes - i,
    {
        if hash[i] != 0 {
            proof {
                lemma_leading_zero_bits_skip(hash@, i as int);
                let rest = hash@.subrange(i as int, hash@.len() as int);
                assert(rest[0] == hash@[i as int]);
                assert(leading_zero_bits(rest) == byte_leading_zeros(rest[0]));
                assert(8 * full_bytes <= zero_bits) by (nonlinear_arith)
                    requires full_bytes == zero_bits / 8;
            }
            return false;
        }
        i = i + 1;
    }
    proof {
        lemma_leading_zero_bits_skip(hash@, full_bytes as int);
    }
    let rest = Ghost(hash@.subrange(full_bytes as int, hash@.len() as int));
    if remaining_bits == 0 {
        return true;
    }
    if hash.len() > full_bytes {
        assert(rest@[0] == hash@[full_bytes as int]);
        let lz = byte_zero_bits(hash[full_bytes]);
        lz as usize >= remaining_bits
    } else {
        assert(rest@.len() == 0);
        false
    }
}

/// Whether a hash meets a hex difficulty target; an invalid target is an error.
pub fn hash_satisfies(hash: &[u8], difficulty_hex: &str) -> (r: Result<bool, DifficultyError>)
    requires
        difficulty_hex@.len() <= usize::MAX / 4,
    ensures
        r is Ok <==> target_zero_bits(difficulty_hex@) is Some,
        r is Ok ==> r->Ok_0 == (leading_zero_bits(hash@) >= target_zero_bits(difficulty_hex@)->Some_0),
        difficulty_hex@.len() == 0 ==> r == Err::<bool, DifficultyError>(DifficultyError::Empty),
        difficulty_hex@.len() > 0 && !is_hex_text(difficulty_hex@) ==> r == Err::<bool, DifficultyError>(DifficultyError::Malformed),
{
    match difficulty_to_zero_bits(difficulty_hex) {
        Ok(z) => Ok(hash_structure_good(hash, z)),
        Err(e) => Err(e),
    }
}

} // verus!

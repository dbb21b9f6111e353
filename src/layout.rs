//! Where an identity's local state lives: per-challenge directories for each
//! kind of identity, the files inside them, and the names of entries in the
//! shared submission queue. Paths are lists of components, joined by the
//! caller.

use vstd::prelude::*;

verus! {

/// Which identity a piece of local state belongs to.
pub enum Locator {
    /// A long-lived key given by the operator.
    Persistent { address: String },
    /// An identity derived from a seed; `seed_id` names the seed.
    Mnemonic { seed_id: String, account: u32, index: u32 },
    /// A one-shot generated identity.
    Ephemeral { address: String },
}

/// Why a path could not be formed.
#[derive(Debug, Clone, Copy, PartialEq, Eq, Structural)]
pub enum PathError {
    /// A name is empty, `.` or `..`, or holds a separator character.
    UnsafeComponent,
}

/// A path component that names exactly one directory entry: not empty, not
/// `.` or `..`, and free of `/`, `\`, NUL and `#` (the queue's separator).
pub open spec fn is_safe_component(c: Seq<char>) -> bool {
    &&& c.len() > 0
    &&& c != seq!['.']
    &&& c != seq!['.', '.']
    &&& forall|i: int| 0 <= i < c.len() ==> {
        let x = #[trigger] c[i];
        x != '/' && x != '\\' && x != '\0' && x != '#'
    }
}

/// Whether `c` is a safe path component.
pub fn safe_component(c: &str) -> (r: bool)
    ensures
        r == is_safe_component(c@),
{
    let n = c.unicode_len();
    if n == 0 {
        return false;
    }
    let mut i: usize = 0;
    while i < n
        invariant
            n == c@.len(),
            0 <= i <= n,
            forall|j: int| 0 <= j < i ==> {
                let x = #[trigger] c@[j];
                x != '/' && x != '\\' && x != '\0' && x != '#'
            },
        decreases n - i,
    {
        let x = c.get_char(i);
        if x == '/' || x == '\\' || x == '\0' || x == '#' {
            return false;
        }
        i = i + 1;
    }
    if n == 1 && c.get_char(0) == '.' {
        assert(c@ =~= seq!['.']);
        return false;
    }
    if n == 2 && c.get_char(0) == '.' && c.get_char(1) == '.' {
        assert(c@ =~= seq!['.', '.']);
        return false;
    }
    proof {
        if n == 1 {
            assert(c@ != seq!['.']) by {
                if c@ == seq!['.'] {
                    assert(c@[0] == '.');
                }
            }
        }
        if n == 2 {
            assert(c@ != seq!['.', '.']) by {
                if c@ == seq!['.', '.'] {
                    assert(c@[0] == '.' && c@[1] == '.');
                }
            }
        }
    }
    true
}

/// Decimal digit character.
pub open spec fn digit_char(d: nat) -> char {
    if d == 0 { '0' } else if d == 1 { '1' } else if d == 2 { '2' } else if d == 3 { '3' }
    else if d == 4 { '4' } else if d == 5 { '5' } else if d == 6 { '6' } else if d == 7 { '7' }
    else if d == 8 { '8' } else { '9' }
}

/// Value of a decimal digit character.
pub open spec fn digit_value(c: char) -> nat {
    if c == '0' { 0 } else if c == '1' { 1 } else if c == '2' { 2 } else if c == '3' { 3 }
    else if c == '4' { 4 } else if c == '5' { 5 } else if c == '6' { 6 } else if c == '7' { 7 }
    else if c == '8' { 8 } else { 9 }
}

/// Decimal text of `n`, without leading zeros.
pub open spec fn decimal(n: nat) -> Seq<char>
    decreases n,
{
    if n < 10 {
        seq![digit_char(n)]
    } else {
        decimal(n / 10).push(digit_char(n % 10))
    }
}

/// The number a decimal text stands for.
pub open spec fn decimal_value(s: Seq<char>) -> nat
    decreases s.len(),
{
    if s.len() == 0 {
        0
    } else {
        decimal_value(s.drop_last()) * 10 + digit_value(s.last())
    }
}

proof fn lemma_decimal_round_trip(n: nat)
    ensures
        decimal_value(decimal(n)) == n,
        decimal(n).len() > 0,
    decreases n,
{
    let d = n % 10;
    assert(digit_value(digit_char(d)) == d);
    if n >= 10 {
        lemma_decimal_round_trip(n / 10);
        assert(decimal(n).drop_last() =~= decimal(n / 10));
        assert(decimal(n).last() == digit_char(d));
        assert(n == (n / 10) * 10 + d);
    } else {
        let s = seq![digit_char(n)];
        assert(s.drop_last() =~= Seq::<char>::empty());
        assert(decimal_value(s.drop_last()) == 0);
        assert(s.last() == digit_char(n));
    }
}

/// Decimal text is injective.
pub proof fn lemma_decimal_injective(a: nat, b: nat)
    requires
        decimal(a) == decimal(b),
    ensures
        a == b,
{
    lemma_decimal_round_trip(a);
    lemma_decimal_round_trip(b);
}

fn append_decimal(s: &mut String, n: u32)
    ensures
        final(s)@ == old(s)@ + decimal(n as nat),
    decreases n,
{
    if n >= 10 {
        append_decimal(s, n / 10);
    }
    let d = n % 10;
    proof {
        reveal_strlit("0"); reveal_strlit("1"); reveal_strlit("2"); reveal_strlit("3");
        reveal_strlit("4"); reveal_strlit("5"); reveal_strlit("6"); reveal_strlit("7");
        reveal_strlit("8"); reveal_strlit("9");
    }
    let ghost before = s@;
    if d == 0 { s.append("0"); } else if d == 1 { s.append("1"); } else if d == 2 { s.append("2"); }
    else if d == 3 { s.append("3"); } else if d == 4 { s.append("4"); } else if d == 5 { s.append("5"); }
    else if d == 6 { s.append("6"); } else if d == 7 { s.append("7"); } else if d == 8 { s.append("8"); }
    else { s.append("9"); }
    proof {
        assert(s@ =~= before.push(digit_char(d as nat)));
        if n >= 10 {
            assert(decimal(n as nat) == decimal((n / 10) as nat).push(digit_char((n % 10) as nat)));
        }
    }
}

/// Decimal text of a number.
pub fn decimal_text(n: u32) -> (r: String)
    ensures
        r@ == decimal(n as nat),
{
    let mut s = String::new();
    append_decimal(&mut s, n);
    s
}

/// Views of a list of strings.
pub open spec fn views(v: Seq<String>) -> Seq<Seq<char>> {
    v.map_values(|s: String| s@)
}

/// Directory of an identity's state for one challenge.
pub open spec fn identity_dir_spec(l: Locator, challenge_id: Seq<char>) -> Seq<Seq<char>> {
    match l {
        Locator::Persistent { address } => seq![challenge_id, "persistent"@, address@],
        Locator::Mnemonic { seed_id, account, index } => seq![
            challenge_id,
            "mnemonic"@,
            seed_id@,
            decimal(account as nat),
            decimal(index as nat),
        ],
        Locator::Ephemeral { address } => seq![challenge_id, "ephemeral"@, address@],
    }
}

/// All components of a list are safe.
pub open spec fn all_safe(p: Seq<Seq<char>>) -> bool {
    forall|i: int| 0 <= i < p.len() ==> is_safe_component(#[trigger] p[i])
}

/// The file kinds kept in an identity's directory.
#[derive(Debug, Clone, Copy, PartialEq, Eq, Structural)]
pub enum StateFile {
    /// Written once a submission is confirmed.
    Receipt,
    /// A found solution that is not yet known to be queued.
    RecoveryMarker,
    /// The cached challenge record.
    Challenge,
}

/// File name of a kind of state file.
pub open spec fn state_file_name(f: StateFile) -> Seq<char> {
    match f {
        StateFile::Receipt => "receipt.json"@,
        StateFile::RecoveryMarker => "found.json"@,
        StateFile::Challenge => "challenge.json"@,
    }
}

impl Locator {
    /// The directory holding this identity's state for `challenge_id`, as
    /// path components below the storage root: the challenge, the kind of
    /// identity, then what names the identity. Refused when a name given
    /// is not a safe path component.
    pub fn identity_dir(&self, challenge_id: &String) -> (r: Result<Vec<String>, PathError>)
        ensures
            r is Ok <==> all_safe(identity_dir_spec(*self, challenge_id@)),
            r is Ok ==> views(r->Ok_0@) == identity_dir_spec(*self, challenge_id@),
    {
        proof {
            reveal_strlit("persistent");
            reveal_strlit("mnemonic");
            reveal_strlit("ephemeral");
        }
        let mut out: Vec<String> = Vec::new();
        out.push(challenge_id.clone());
        match self {
            Locator::Persistent { address } => {
                out.push(String::from_str("persistent"));
                out.push(address.clone());
            },
            Locator::Mnemonic { seed_id, account, index } => {
                out.push(String::from_str("mnemonic"));
                out.push(seed_id.clone());
                out.push(decimal_text(*account));
                out.push(decimal_text(*index));
            },
            Locator::Ephemeral { address } => {
                out.push(String::from_str("ephemeral"));
                out.push(address.clone());
            },
        }
        let ghost want = identity_dir_spec(*self, challenge_id@);
        assert(views(out@) =~= want);
        let mut i: usize = 0;
        while i < out.len()
            invariant
                views(out@) == want,
                want == identity_dir_spec(*self, challenge_id@),
                0 <= i <= out@.len(),
                forall|j: int| 0 <= j < i ==> is_safe_component(#[trigger] want[j]),
            decreases out@.len() - i,
        {
            assert(want[i as int] == out@[i as int]@);
            if !safe_component(out[i].as_str()) {
                assert(!is_safe_component(want[i as int]));
                assert(views(out@).len() == out@.len());
                assert(!all_safe(want));
                return Err(PathError::UnsafeComponent);
            }
            i = i + 1;
        }
        Ok(out)
    }

    /// Path of one of this identity's state files for `challenge_id`.
    pub fn state_file(&self, challenge_id: &String, file: StateFile) -> (r: Result<Vec<String>, PathError>)
        ensures
            r is Ok <==> all_safe(identity_dir_spec(*self, challenge_id@)),
            r is Ok ==> views(r->Ok_0@) == identity_dir_spec(*self, challenge_id@).push(state_file_name(file)),
    {
        match self.identity_dir(challenge_id) {
            Ok(mut dir) => {
                let ghost d = dir@;
                let name = match file {
                    StateFile::Receipt => String::from_str("receipt.json"),
                    StateFile::RecoveryMarker => String::from_str("found.json"),
                    StateFile::Challenge => String::from_str("challenge.json"),
                };
                dir.push(name);
                assert(views(dir@) =~= views(d).push(state_file_name(file)));
                Ok(dir)
            },
            Err(e) => Err(e),
        }
    }

    /// Whether this kind of identity has a receipt path used historically
    /// for its derived address (the persistent layout), which must also be
    /// checked before mining.
    pub fn has_alternate_receipt(&self) -> (r: bool)
        ensures
            r == (*self is Mnemonic),
    {
        match self {
            Locator::Mnemonic { .. } => true,
            _ => false,
        }
    }
}

/// The alternate receipt path of an identity whose derived address is
/// `address`: where the persistent layout keeps the receipt.
pub fn alternate_receipt(challenge_id: &String, address: &String) -> (r: Result<Vec<String>, PathError>)
    ensures
        r is Ok <==> is_safe_component(challenge_id@) && is_safe_component(address@),
        r is Ok ==> views(r->Ok_0@) == seq![challenge_id@, "persistent"@, address@, "receipt.json"@],
{
    let l = Locator::Persistent { address: address.clone() };
    let r = l.state_file(challenge_id, StateFile::Receipt);
    proof {
        reveal_strlit("persistent");
        let p = identity_dir_spec(l, challenge_id@);
        if is_safe_component(challenge_id@) && is_safe_component(address@) {
            assert forall|i: int| 0 <= i < p.len() implies is_safe_component(#[trigger] p[i]) by {
                if i == 1 {
                    assert(p[1] =~= seq!['p', 'e', 'r', 's', 'i', 's', 't', 'e', 'n', 't']);
                }
            }
        } else if !is_safe_component(challenge_id@) {
            assert(p[0] == challenge_id@);
        } else {
            assert(p[2] == address@);
        }
    }
    r
}

/// Two different identities never share a directory for the same
/// challenge: the directories of two locators are equal only when the
/// locators name the same identity.
pub proof fn lemma_locators_do_not_overlap(a: Locator, b: Locator, challenge_id: Seq<char>)
    requires
        identity_dir_spec(a, challenge_id) == identity_dir_spec(b, challenge_id),
    ensures
        match (a, b) {
            (Locator::Persistent { address: x }, Locator::Persistent { address: y }) => x@ == y@,
            (Locator::Ephemeral { address: x }, Locator::Ephemeral { address: y }) => x@ == y@,
            (
                Locator::Mnemonic { seed_id: s1, account: a1, index: i1 },
                Locator::Mnemonic { seed_id: s2, account: a2, index: i2 },
            ) => s1@ == s2@ && a1 == a2 && i1 == i2,
            _ => false,
        },
{
    reveal_strlit("persistent");
    reveal_strlit("mnemonic");
    reveal_strlit("ephemeral");
    let pa = identity_dir_spec(a, challenge_id);
    let pb = identity_dir_spec(b, challenge_id);
    assert(pa.len() == pb.len());
    assert(pa[1] == pb[1]);
    assert(pa[2] == pb[2]);
    match (a, b) {
        (Locator::Mnemonic { seed_id: s1, account: a1, index: i1 }, Locator::Mnemonic { seed_id: s2, account: a2, index: i2 }) => {
            assert(pa[3] == pb[3]);
            assert(pa[4] == pb[4]);
            lemma_decimal_injective(a1 as nat, a2 as nat);
            lemma_decimal_injective(i1 as nat, i2 as nat);
        },
        (Locator::Persistent { .. }, Locator::Ephemeral { .. }) => {
            assert(pa[1][0] == 'p');
            assert(pb[1][0] == 'e');
        },
        (Locator::Ephemeral { .. }, Locator::Persistent { .. }) => {
            assert(pa[1][0] == 'e');
            assert(pb[1][0] == 'p');
        },
        _ => {},
    }
}

} // verus!

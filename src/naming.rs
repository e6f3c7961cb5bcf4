use vstd::prelude::*;
use vstd::string::*;

verus! {

/// Lower-case hexadecimal digit of `d < 16`.
pub open spec fn hex_char(d: nat) -> char {
    if d < 10 {
        ((d + 48) as u8) as char
    } else {
        ((d + 87) as u8) as char
    }
}

/// The last `n` hexadecimal digits of `v`, most significant first.
pub open spec fn hex_digits(v: nat, n: nat) -> Seq<char>
    decreases n,
{
    if n == 0 {
        Seq::empty()
    } else {
        hex_digits(v / 16, (n - 1) as nat).push(hex_char(v % 16))
    }
}

/// Canonical text of a UUID: 32 lower-case hex digits in groups 8-4-4-4-12.
pub open spec fn uuid_text(u: u128) -> Seq<char> {
    let h = hex_digits(u as nat, 32);
    h.subrange(0, 8) + seq!['-'] + h.subrange(8, 12) + seq!['-'] + h.subrange(12, 16) + seq!['-']
        + h.subrange(16, 20) + seq!['-'] + h.subrange(20, 32)
}

/// Decimal digits of `n`, without leading zeros.
pub open spec fn nat_text(n: nat) -> Seq<char>
    decreases n,
{
    if n < 10 {
        seq![((n + 48) as u8) as char]
    } else {
        nat_text(n / 10).push((((n % 10) + 48) as u8) as char)
    }
}

/// Decimal text of an integer, with a leading `-` when negative.
pub open spec fn int_text(n: int) -> Seq<char> {
    if n < 0 {
        seq!['-'] + nat_text((-n) as nat)
    } else {
        nat_text(n as nat)
    }
}

pub open spec fn project_prefix() -> Seq<char> {
    seq!['p', 'r', 'o', 'j', 'e', 'c', 't', '_']
}

/// Name of the generated crate of a program: `project_<uuid>`.
pub open spec fn crate_name_of(pid: u128) -> Seq<char> {
    project_prefix() + uuid_text(pid)
}

/// Basename of the versioned executable: `project_<uuid>_v<version>`.
pub open spec fn binary_name(pid: u128, version: i64) -> Seq<char> {
    crate_name_of(pid) + seq!['_', 'v'] + int_text(version as int)
}

/// Relies on `uuid::Uuid::from_u128` and its hyphenated `Display`: lower-case
/// hex digits of the big-endian value, grouped 8-4-4-4-12.
#[verifier::external_body]
fn uuid_string(u: u128) -> (r: String)
    ensures
        r@ == uuid_text(u),
{
    uuid::Uuid::from_u128(u).hyphenated().to_string()
}

/// Relies on `uuid::Uuid::parse_str`: the hyphenated lower-case text of a
/// UUID parses back to it.
#[verifier::external_body]
fn parse_uuid(s: &str) -> (r: Option<u128>)
    ensures
        forall|u: u128| s@ == uuid_text(u) ==> r == Some(u),
{
    uuid::Uuid::parse_str(s).ok().map(|u| u.as_u128())
}

/// Relies on `i64::to_string`: decimal text, `-` before a negative value.
#[verifier::external_body]
pub(crate) fn i64_string(v: i64) -> (r: String)
    ensures
        r@ == int_text(v as int),
{
    v.to_string()
}

/// Relies on `i64::from_str`: the decimal text of a value parses back to it.
#[verifier::external_body]
fn parse_i64(s: &str) -> (r: Option<i64>)
    ensures
        forall|v: i64| s@ == int_text(v as int) ==> r == Some(v),
{
    s.parse::<i64>().ok()
}

proof fn lemma_hex_digits_len(v: nat, n: nat)
    ensures
        hex_digits(v, n).len() == n,
    decreases n,
{
    if n > 0 {
        lemma_hex_digits_len(v / 16, (n - 1) as nat);
    }
}

proof fn lemma_uuid_text_len(u: u128)
    ensures
        uuid_text(u).len() == 36,
{
    lemma_hex_digits_len(u as nat, 32);
}

proof fn lemma_nat_text_nonempty(n: nat)
    ensures
        nat_text(n).len() >= 1,
    decreases n,
{
    if n >= 10 {
        lemma_nat_text_nonempty(n / 10);
    }
}

proof fn lemma_binary_name_parts(pid: u128, version: i64)
    ensures
        binary_name(pid, version).len() >= 47,
        binary_name(pid, version).subrange(8, 44) == uuid_text(pid),
        binary_name(pid, version).subrange(46, binary_name(pid, version).len() as int)
            == int_text(version as int),
{
    lemma_uuid_text_len(pid);
    lemma_nat_text_nonempty(if version < 0 { (-version) as nat } else { version as nat });
    let n = binary_name(pid, version);
    assert(n.subrange(8, 44) =~= uuid_text(pid));
    assert(n.subrange(46, n.len() as int) =~= int_text(version as int));
}

/// Name of the generated crate of a program.
pub fn crate_name(pid: u128) -> (r: String)
    ensures
        r@ == crate_name_of(pid),
{
    let mut r = String::from_str("project_");
    let u = uuid_string(pid);
    r.append(u.as_str());
    proof {
        reveal_strlit("project_");
        assert(r@ =~= crate_name_of(pid));
    }
    r
}

/// Basename of the versioned executable of `(pid, version)`.
pub fn versioned_binary_name(pid: u128, version: i64) -> (r: String)
    ensures
        r@ == binary_name(pid, version),
{
    let mut r = crate_name(pid);
    r.append("_v");
    let v = i64_string(version);
    r.append(v.as_str());
    proof {
        reveal_strlit("_v");
        assert(r@ =~= binary_name(pid, version));
    }
    r
}

/// Recovers `(pid, version)` from the basename of a versioned executable.
/// Exactly the names that `versioned_binary_name` produces are accepted.
pub fn binary_name_to_parts(name: &str) -> (r: Option<(u128, i64)>)
    ensures
        r matches Some((pid, version)) ==> name@ == binary_name(pid, version),
        forall|pid: u128, version: i64|
            name@ == binary_name(pid, version) ==> r == Some((pid, version)),
{
    let len = name.unicode_len();
    if len < 47 {
        proof {
            assert forall|pid: u128, version: i64| name@ != binary_name(pid, version) by {
                lemma_binary_name_parts(pid, version);
            }
        }
        return None;
    }
    let uuid_part = name.substring_char(8, 44);
    let version_part = name.substring_char(46, len);
    let pid = parse_uuid(uuid_part);
    let version = parse_i64(version_part);
    proof {
        assert forall|p: u128, v: i64| name@ == binary_name(p, v) implies pid == Some(p)
            && version == Some(v) by {
            lemma_binary_name_parts(p, v);
        }
    }
    match (pid, version) {
        (Some(p), Some(v)) => {
            let canonical = versioned_binary_name(p, v);
            if canonical.as_str().unicode_len() == len && same_text(canonical.as_str(), name) {
                Some((p, v))
            } else {
                None
            }
        },
        _ => None,
    }
}

/// Character-wise equality of two strings.
fn same_text(a: &str, b: &str) -> (r: bool)
    ensures
        r == (a@ == b@),
{
    let n = a.unicode_len();
    if n != b.unicode_len() {
        return false;
    }
    let mut i: usize = 0;
    while i < n
        invariant
            n == a@.len(),
            n == b@.len(),
            i <= n,
            forall|k: int| 0 <= k < i ==> a@[k] == b@[k],
        decreases n - i,
    {
        if a.get_char(i) != b.get_char(i) {
            return false;
        }
        i = i + 1;
    }
    assert(a@ =~= b@);
    true
}

} // verus!

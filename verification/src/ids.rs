//! Identifiers of nodes, connections, dispatches and agents.
//!
//! An identifier is the 128-bit value of a UUID. Reading, writing and generating UUIDs is the
//! work of the `uuid` crate.

use std::collections::HashMap;

use uuid::Uuid;
use vstd::arithmetic::power::pow;
use vstd::prelude::*;

verus! {

broadcast use vstd::std_specs::hash::group_hash_axioms;

/// The nil identifier.
pub const NIL: u128 = 0;

/// The namespace of domain names, under which agent identifiers are derived.
pub const NAMESPACE_DNS: u128 = 0x6ba7b810_9dad_11d1_80b4_00c04fd430c8;

/// The lower-case hexadecimal digit of `n`.
pub open spec fn hex_digit(n: int) -> char {
    seq!['0', '1', '2', '3', '4', '5', '6', '7', '8', '9', 'a', 'b', 'c', 'd', 'e', 'f'][n]
}

/// The `k`-th of the 32 hexadecimal digits of `id`, the most significant first.
pub open spec fn nibble(id: u128, k: int) -> int {
    (id as int / pow(16, (31 - k) as nat)) % 16
}

/// Whether the hyphenated form of an identifier has a hyphen at index `i`.
pub open spec fn is_hyphen_index(i: int) -> bool {
    i == 8 || i == 13 || i == 18 || i == 23
}

/// How many hyphens stand before index `i` of the hyphenated form.
pub open spec fn hyphens_before(i: int) -> int {
    if i < 8 {
        0
    } else if i < 13 {
        1
    } else if i < 18 {
        2
    } else if i < 23 {
        3
    } else {
        4
    }
}

/// The hyphenated form of `id`: 32 lower-case digits in groups of 8, 4, 4, 4 and 12.
pub open spec fn hyphenated(id: u128) -> Seq<char> {
    Seq::new(
        36,
        |i: int|
            if is_hyphen_index(i) {
                '-'
            } else {
                hex_digit(nibble(id, i - hyphens_before(i)))
            },
    )
}

/// Whether `id` carries the version number `version` and the variant of RFC 9562.
pub open spec fn has_version(id: u128, version: int) -> bool {
    &&& nibble(id, 12) == version
    &&& 8 <= nibble(id, 16) < 12
}

/// The value of a hexadecimal digit of either case.
pub open spec fn hex_value(c: char) -> Option<int> {
    if '0' <= c <= '9' {
        Some(c as int - '0' as int)
    } else if 'a' <= c <= 'f' {
        Some(c as int - 'a' as int + 10)
    } else if 'A' <= c <= 'F' {
        Some(c as int - 'A' as int + 10)
    } else {
        None
    }
}

/// The number that hexadecimal digits write, the most significant first.
pub open spec fn hex_number(digits: Seq<char>) -> int
    decreases digits.len(),
{
    if digits.len() == 0 {
        0
    } else {
        hex_number(digits.drop_last()) * 16 + hex_value(digits.last())->0
    }
}

/// The index in the hyphenated form at which the `k`-th digit stands.
pub open spec fn digit_index(k: int) -> int {
    if k < 8 {
        k
    } else if k < 12 {
        k + 1
    } else if k < 16 {
        k + 2
    } else if k < 20 {
        k + 3
    } else {
        k + 4
    }
}

/// The identifier that 32 digits write, and no other text.
pub open spec fn simple_id(text: Seq<char>) -> Option<u128> {
    if text.len() == 32 && forall|i: int| 0 <= i < 32 ==> hex_value(#[trigger] text[i]) is Some {
        Some(hex_number(text) as u128)
    } else {
        None
    }
}

/// The identifier that 32 digits in groups of 8, 4, 4, 4 and 12 write, and no other text.
pub open spec fn hyphenated_id(text: Seq<char>) -> Option<u128> {
    if text.len() == 36 && forall|i: int|
        0 <= i < 36 && is_hyphen_index(i) ==> #[trigger] text[i] == '-' {
        simple_id(Seq::new(32, |k: int| text[digit_index(k)]))
    } else {
        None
    }
}

/// Whether a text is `urn:uuid:`, in letters of either case.
pub open spec fn is_urn_prefix(text: Seq<char>) -> bool {
    &&& text.len() == 9
    &&& forall|i: int|
        0 <= i < 9 ==> {
            ||| #[trigger] text[i] == "urn:uuid:"@[i]
            ||| 'A' <= text[i] <= 'Z' && text[i] as int + 32 == "urn:uuid:"@[i] as int
        }
}

/// The identifier that a text writes, in one of four forms: simple, hyphenated, braced and URN.
pub open spec fn parsed_id(text: Seq<char>) -> Option<u128> {
    if text.len() == 32 {
        simple_id(text)
    } else if text.len() == 36 {
        hyphenated_id(text)
    } else if text.len() == 38 && text[0] == '{' && text[37] == '}' {
        hyphenated_id(text.subrange(1, 37))
    } else if text.len() == 45 && is_urn_prefix(text.take(9)) {
        hyphenated_id(text.skip(9))
    } else {
        None
    }
}

/// The name-based identifier that `uuid::Uuid::new_v5` derives within a namespace.
pub uninterp spec fn name_based_id(namespace: u128, name: Seq<char>) -> u128;

/// Calls `uuid::Uuid::parse_str`.
///
/// Trusted: a text is read exactly if it has one of the four forms of [`parsed_id`], and then as the
/// number that its digits write.
#[verifier::external_body]
pub(crate) fn uuid_parse(text: &str) -> (r: Option<u128>)
    ensures
        r == parsed_id(text@),
{
    Uuid::parse_str(text).ok().map(|id| id.as_u128())
}

/// Calls the `Display` implementation of `uuid::Uuid`.
///
/// Trusted: the text is the hyphenated form.
#[verifier::external_body]
pub(crate) fn uuid_text(id: u128) -> (r: String)
    ensures
        r@ == hyphenated(id),
{
    Uuid::from_u128(id).to_string()
}

/// Calls `uuid::Uuid::new_v5` on the UTF-8 bytes of `name`.
///
/// Trusted: the result depends on the namespace and the name alone and is a version 5 identifier.
#[verifier::external_body]
pub(crate) fn uuid_from_name(namespace: u128, name: &str) -> (r: u128)
    ensures
        r == name_based_id(namespace, name@),
        has_version(r, 5),
{
    Uuid::new_v5(&Uuid::from_u128(namespace), name.as_bytes()).as_u128()
}

/// Calls `uuid::Uuid::new_v4`.
///
/// Trusted: whatever the random bits are, the result is a version 4 identifier. Nothing is said
/// of the random bits; two calls may agree. The call panics where the system has no randomness.
#[verifier::external_body]
pub(crate) fn uuid_random() -> (r: u128)
    ensures
        has_version(r, 4),
{
    Uuid::new_v4().as_u128()
}

/// The `k`-th of a list of version 4 identifiers without repetitions.
spec fn spare(k: u64) -> int {
    (k as int / 0x1000_0000_0000_0000) * 0x1000_0000_0000_0000_0000_0000_0000_0000
        + 0x4000_8000_0000_0000_0000 + k as int % 0x1000_0000_0000_0000
}

proof fn lemma_spare_version(id: u128, k: u64)
    requires
        id == spare(k),
    ensures
        has_version(id, 4),
{
    assert(pow(16, 19) == 0x1000_0000_0000_0000_0000) by {
        reveal_with_fuel(pow, 20);
    }
    assert(pow(16, 15) == 0x1000_0000_0000_0000) by {
        reveal_with_fuel(pow, 16);
    }
}

fn spare_id(k: u64) -> (r: u128)
    ensures
        r == spare(k),
        has_version(r, 4),
{
    let top: u128 = (k / 0x1000_0000_0000_0000) as u128;
    let low: u128 = (k % 0x1000_0000_0000_0000) as u128;
    let r: u128 = top * 0x1000_0000_0000_0000_0000_0000_0000_0000 + 0x4000_8000_0000_0000_0000
        + low;
    proof {
        lemma_spare_version(r, k);
    }
    r
}

/// An identifier of version 4 that is not in use. It is drawn at random; should the one that was
/// drawn be in use, the first spare one that is not takes its place.
pub(crate) fn fresh_id<V>(used: &HashMap<u128, V>) -> (r: u128)
    ensures
        !used@.contains_key(r),
        has_version(r, 4),
{
    let drawn = uuid_random();
    if !used.contains_key(&drawn) {
        return drawn;
    }
    let count: usize = used.len();
    let mut k: u64 = 0;
    let mut id: u128 = spare_id(0);
    let ghost mut tried: Set<u128> = Set::empty();
    while used.contains_key(&id)
        invariant
            count == used@.len(),
            id == spare(k),
            has_version(id, 4),
            tried.finite(),
            tried.len() == k,
            tried.subset_of(used@.dom()),
            forall|t: u128| #[trigger] tried.contains(t) ==> exists|j: u64| j < k && t == spare(j),
            k <= count,
        decreases count - k,
    {
        proof {
            if tried.contains(id) {
                let j = choose|j: u64| j < k && id == spare(j);
                assert(spare(j) != spare(k));
            }
            tried = tried.insert(id);
            vstd::set_lib::lemma_len_subset(tried, used@.dom());
        }
        k = k + 1;
        id = spare_id(k);
    }
    id
}

} // verus!

//! The difficulty predicate: a digest meets a target when it is
//! lexicographically no greater than the target over the first (at most four)
//! bytes of the target.

use vstd::prelude::*;

verus! {

/// The outside error type of `hex::decode`; it is only carried and dropped.
#[verifier::external_type_specification]
#[verifier::external_body]
pub struct ExFromHexError(hex::FromHexError);

/// Whether `c` is a hexadecimal digit of either case.
pub open spec fn is_hex_char(c: char) -> bool {
    ('0' <= c && c <= '9') || ('a' <= c && c <= 'f') || ('A' <= c && c <= 'F')
}

/// The value of a hexadecimal digit.
pub open spec fn hex_value(c: char) -> int {
    if '0' <= c && c <= '9' {
        (c as nat) - ('0' as nat)
    } else if 'a' <= c && c <= 'f' {
        (c as nat) - ('a' as nat) + 10
    } else {
        (c as nat) - ('A' as nat) + 10
    }
}

/// A text decodes as hex when it has an even number of characters, all digits.
pub open spec fn hex_decodable(s: Seq<char>) -> bool {
    s.len() % 2 == 0 && forall|i: int| 0 <= i < s.len() ==> is_hex_char(#[trigger] s[i])
}

/// The bytes that a decodable hex text stands for, two digits per byte, high
/// digit first.
pub open spec fn hex_decoded(s: Seq<char>) -> Seq<u8> {
    Seq::new(
        s.len() / 2,
        |i: int| (hex_value(s[2 * i]) * 16 + hex_value(s[2 * i + 1])) as u8,
    )
}

/// Relies on hex::decode: it fails on a text of odd length or with a
/// character that is not a hex digit, and otherwise turns each pair of digits
/// (either case) into one byte.
#[verifier::external_body]
fn decode_hex(s: &str) -> (r: Result<Vec<u8>, hex::FromHexError>)
    ensures
        r is Ok <==> hex_decodable(s@),
        r is Ok ==> r->Ok_0@ == hex_decoded(s@),
{
    hex::decode(s)
}

/// How many leading bytes of a target take part in the comparison.
pub open spec fn compared_len(target: Seq<u8>) -> nat {
    if target.len() < 4 {
        target.len()
    } else {
        4
    }
}

/// `a` is no greater than `b` over positions `i .. k`, deciding at the first
/// position where they differ.
pub open spec fn lex_le_from(a: Seq<u8>, b: Seq<u8>, i: nat, k: nat) -> bool
    decreases k - i,
{
    if i >= k {
        true
    } else if a[i as int] < b[i as int] {
        true
    } else if a[i as int] > b[i as int] {
        false
    } else {
        lex_le_from(a, b, i + 1, k)
    }
}

/// `a` is strictly less than `b` over positions `i .. k`.
pub open spec fn lex_lt_from(a: Seq<u8>, b: Seq<u8>, i: nat, k: nat) -> bool
    decreases k - i,
{
    if i >= k {
        false
    } else if a[i as int] < b[i as int] {
        true
    } else if a[i as int] > b[i as int] {
        false
    } else {
        lex_lt_from(a, b, i + 1, k)
    }
}

/// A digest meets a decoded target when it is long enough to cover the
/// compared bytes and is no greater than the target over them.
pub open spec fn meets_target_spec(digest: Seq<u8>, target: Seq<u8>) -> bool {
    digest.len() >= compared_len(target) && lex_le_from(digest, target, 0, compared_len(target))
}

/// A digest meets a difficulty text when the text decodes as hex and the
/// digest meets the decoded target; an undecodable text is never met.
pub open spec fn meets_difficulty_spec(digest: Seq<u8>, difficulty: Seq<char>) -> bool {
    hex_decodable(difficulty) && meets_target_spec(digest, hex_decoded(difficulty))
}

/// Compares a digest with a decoded target over the first `min(4, len)`
/// bytes of the target, most significant byte first.
pub fn meets_target(digest: &[u8], target: &[u8]) -> (r: bool)
    ensures
        r == meets_target_spec(digest@, target@),
{
    let k: usize = if target.len() < 4 {
        target.len()
    } else {
        4
    };
    if digest.len() < k {
        return false;
    }
    let mut i: usize = 0;
    while i < k
        invariant
            k == compared_len(target@),
            k <= digest@.len(),
            k <= target@.len(),
            i <= k,
            lex_le_from(digest@, target@, 0, k as nat) == lex_le_from(
                digest@,
                target@,
                i as nat,
                k as nat,
            ),
        decreases k - i,
    {
        if digest[i] < target[i] {
            return true;
        }
        if digest[i] > target[i] {
            return false;
        }
        i = i + 1;
    }
    true
}

/// Whether `digest` meets the hex-encoded `difficulty`. A difficulty that does
/// not decode is never met; this never panics.
pub fn meets_difficulty(digest: &[u8], difficulty: &str) -> (r: bool)
    ensures
        r == meets_difficulty_spec(digest@, difficulty@),
{
    match decode_hex(difficulty) {
        Ok(target) => meets_target(digest, target.as_slice()),
        Err(_) => false,
    }
}

/// Strictly-less followed by no-greater is no-greater, position by position.
proof fn lemma_lex_lt_le_trans(a: Seq<u8>, b: Seq<u8>, c: Seq<u8>, i: nat, k: nat)
    requires
        lex_lt_from(a, b, i, k),
        lex_le_from(b, c, i, k),
    ensures
        lex_le_from(a, c, i, k),
    decreases k - i,
{
    if i < k && a[i as int] == b[i as int] && b[i as int] == c[i as int] {
        lemma_lex_lt_le_trans(a, b, c, i + 1, k);
    }
}

/// A smaller digest meets every target that a larger one meets: if `d1` is
/// lexicographically less than `d2` over the compared bytes of the target, and
/// `d2` meets the difficulty, then so does `d1`.
pub proof fn law_difficulty_monotone(d1: Seq<u8>, d2: Seq<u8>, difficulty: Seq<char>)
    requires
        d1.len() == d2.len(),
        lex_lt_from(d1, d2, 0, compared_len(hex_decoded(difficulty))),
        meets_difficulty_spec(d2, difficulty),
    ensures
        meets_difficulty_spec(d1, difficulty),
{
    let target = hex_decoded(difficulty);
    lemma_lex_lt_le_trans(d1, d2, target, 0, compared_len(target));
}

proof fn lemma_lex_le_prefix(a1: Seq<u8>, a2: Seq<u8>, b: Seq<u8>, i: nat, k: nat)
    requires
        forall|j: int| i <= j < k ==> a1[j] == a2[j],
    ensures
        lex_le_from(a1, b, i, k) == lex_le_from(a2, b, i, k),
    decreases k - i,
{
    if i < k {
        lemma_lex_le_prefix(a1, a2, b, i + 1, k);
    }
}

/// A target shorter than four bytes is compared over its own bytes only: a
/// digest meets it exactly when the digest covers those bytes and is no
/// greater over them, whatever the digest holds beyond them.
pub proof fn law_short_target(d1: Seq<u8>, d2: Seq<u8>, target: Seq<u8>)
    requires
        target.len() < 4,
        d1.len() >= target.len(),
        d2.len() >= target.len(),
        d1.subrange(0, target.len() as int) == d2.subrange(0, target.len() as int),
    ensures
        meets_target_spec(d1, target) == lex_le_from(d1, target, 0, target.len()),
        meets_target_spec(d1, target) == meets_target_spec(d2, target),
{
    assert forall|j: int| 0 <= j < target.len() implies d1[j] == d2[j] by {
        assert(d1[j] == d1.subrange(0, target.len() as int)[j]);
        assert(d2[j] == d2.subrange(0, target.len() as int)[j]);
    }
    lemma_lex_le_prefix(d1, d2, target, 0, target.len());
}

} // verus!

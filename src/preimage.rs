//! The preimage encoding: the exact text hashed for one attempt.

use vstd::prelude::*;
use vstd::string::StrSliceExecFns;
use vstd::string::StringExecFns;
use crate::challenge::Challenge;

verus! {

/// The lowercase hexadecimal digits, by value.
pub open spec fn hex_digits() -> Seq<char> {
    seq!['0', '1', '2', '3', '4', '5', '6', '7', '8', '9', 'a', 'b', 'c', 'd', 'e', 'f']
}

/// The value of the `i`-th of the sixteen hex digits of `n`, most significant first.
pub open spec fn nibble(n: u64, i: int) -> u64 {
    (n >> ((60 - 4 * i) as u64)) & 0xf
}

/// A nonce as text: sixteen lowercase hex digits, zero-padded, no prefix.
pub open spec fn nonce_text(n: u64) -> Seq<char> {
    Seq::new(16, |i: int| hex_digits()[nibble(n, i) as int])
}

/// The preimage of one attempt: nonce text, identity and the five text fields
/// of the challenge, concatenated in this order without separators.
pub open spec fn preimage_spec(nonce: Seq<char>, address: Seq<char>, c: Challenge) -> Seq<char> {
    nonce + address + c.challenge_id@ + c.difficulty@ + c.no_pre_mine@ + c.latest_submission@
        + c.no_pre_mine_hour@
}

/// Renders a nonce as sixteen lowercase hex digits, zero-padded.
pub fn nonce_hex(n: u64) -> (r: String)
    ensures
        r@ == nonce_text(n),
{
    let digits: &str = "0123456789abcdef";
    proof {
        reveal_strlit("0123456789abcdef");
        assert(digits@ =~= hex_digits());
    }
    let mut r = String::new();
    let mut i: u64 = 0;
    while i < 16
        invariant
            i <= 16,
            digits@ == hex_digits(),
            r@ =~= nonce_text(n).subrange(0, i as int),
        decreases 16 - i,
    {
        let shift: u64 = 60 - 4 * i;
        let d = (n >> shift) & 0xf;
        assert(d < 16) by (bit_vector)
            requires
                d == (n >> shift) & 0xf,
        ;
        let one = digits.substring_char(d as usize, d as usize + 1);
        r.append(one);
        i = i + 1;
    }
    r
}

/// Encodes the preimage of one attempt; identical inputs give identical text.
pub fn build_preimage(nonce: &str, address: &str, challenge: &Challenge) -> (r: String)
    ensures
        r@ == preimage_spec(nonce@, address@, *challenge),
{
    let mut r = nonce.to_owned();
    r.append(address);
    r.append(challenge.challenge_id.as_str());
    r.append(challenge.difficulty.as_str());
    r.append(challenge.no_pre_mine.as_str());
    r.append(challenge.latest_submission.as_str());
    r.append(challenge.no_pre_mine_hour.as_str());
    r
}

/// The preimage is a function of the nonce, the identity and the text fields
/// of the challenge alone: two challenges that agree on those fields give the
/// same text, which starts with the sixteen digits of the nonce.
pub proof fn law_preimage_deterministic(
    nonce: u64,
    address: Seq<char>,
    c1: Challenge,
    c2: Challenge,
)
    requires
        c1.challenge_id@ == c2.challenge_id@,
        c1.difficulty@ == c2.difficulty@,
        c1.no_pre_mine@ == c2.no_pre_mine@,
        c1.latest_submission@ == c2.latest_submission@,
        c1.no_pre_mine_hour@ == c2.no_pre_mine_hour@,
    ensures
        preimage_spec(nonce_text(nonce), address, c1) == preimage_spec(
            nonce_text(nonce),
            address,
            c2,
        ),
        preimage_spec(nonce_text(nonce), address, c1).subrange(0, 16) == nonce_text(nonce),
{
    let p = preimage_spec(nonce_text(nonce), address, c1);
    assert(p.subrange(0, 16) =~= nonce_text(nonce));
}

} // verus!

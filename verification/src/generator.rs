//! The identifier generator: a fresh, fixed-length, alphanumeric random
//! string per invocation, drawn character by character from a 62-symbol
//! alphabet with uniform probability.

use vstd::prelude::*;

use crate::request::RequestID;

verus! {

/// Number of characters in a generated identifier.
pub const ID_LENGTH: usize = 10;

/// Largest multiple of 62 that fits in a `u64`: samples below this bound are
/// mapped to the alphabet without bias, samples at or above it are redrawn.
const REJECTION_BOUND: u64 = 18446744073709551600;

/// A character the generator may produce: an ASCII letter or digit.
pub open spec fn is_id_char(c: char) -> bool {
    ('A' <= c && c <= 'Z') || ('a' <= c && c <= 'z') || ('0' <= c && c <= '9')
}

/// A well-formed identifier: exactly `ID_LENGTH` characters, all of them
/// ASCII letters or digits.
pub open spec fn valid_request_id(s: Seq<char>) -> bool {
    &&& s.len() == ID_LENGTH
    &&& forall|i: int| 0 <= i < s.len() ==> is_id_char(#[trigger] s[i])
}

/// Relies on rand::random: a value drawn uniformly from the thread-local
/// random source. Nothing can be promised of the value itself.
#[verifier::external_body]
fn random_u64() -> u64 {
    rand::random::<u64>()
}

/// Relies on String::push: appends exactly the given character to the end of
/// the string.
#[verifier::external_body]
fn push_char(s: &mut String, c: char)
    ensures
        final(s)@ == old(s)@.push(c),
{
    s.push(c);
}

/// Draw an index below 62, each value equally likely given a uniform source:
/// samples too large to map onto the alphabet without bias are rejected.
fn sample_index() -> (i: u64)
    ensures
        i < 62,
{
    let mut tries: usize = 0;
    while tries < 64
        decreases 64 - tries,
    {
        let r = random_u64();
        if r < REJECTION_BOUND {
            return r % 62;
        }
        tries = tries + 1;
    }
    // Only reachable if the source rejects 64 draws in a row; accept the
    // negligible bias of a direct reduction rather than looping on.
    random_u64() % 62
}

/// The alphabet symbol at index `i`: `A`-`Z`, then `a`-`z`, then `0`-`9`.
fn symbol(i: u64) -> (c: char)
    requires
        i < 62,
    ensures
        is_id_char(c),
{
    let b: u8 = if i < 26 {
        65u8 + (i as u8)  // 'A'
    } else if i < 52 {
        97u8 + ((i - 26) as u8)  // 'a'
    } else {
        48u8 + ((i - 52) as u8)  // '0'
    };
    b as char
}

/// Generator: produce a fresh identifier of `ID_LENGTH` alphanumeric
/// characters, each drawn independently and uniformly from the 62-symbol
/// alphabet. Never fails; consumes entropy from the thread-local source.
pub fn generate() -> (id: RequestID)
    ensures
        valid_request_id(id@),
{
    let mut s = String::new();
    let mut k: usize = 0;
    while k < ID_LENGTH
        invariant
            k <= ID_LENGTH,
            s@.len() == k,
            forall|i: int| 0 <= i < s@.len() ==> is_id_char(#[trigger] s@[i]),
        decreases ID_LENGTH - k,
    {
        let idx = sample_index();
        let c = symbol(idx);
        push_char(&mut s, c);
        k = k + 1;
    }
    RequestID(s)
}

} // verus!

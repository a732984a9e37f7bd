//! Short codes: the alphabet they are drawn from, the shape every code has,
//! and the generation of fresh random candidates.

use vstd::prelude::*;
use rand::RngExt;

verus! {

/// Length of every short code, in characters.
pub const CODE_LEN: usize = 6;

/// A byte of the code alphabet: an ASCII digit, upper-case letter or
/// lower-case letter.
pub open spec fn is_code_byte(b: u8) -> bool {
    (48 <= b && b <= 57) || (65 <= b && b <= 90) || (97 <= b && b <= 122)
}

/// A character of the code alphabet.
pub open spec fn is_code_char(c: char) -> bool {
    ('0' <= c && c <= '9') || ('A' <= c && c <= 'Z') || ('a' <= c && c <= 'z')
}

/// A well-formed short code: exactly `CODE_LEN` characters, all drawn from
/// the alphanumeric alphabet.
pub open spec fn valid_code(s: Seq<char>) -> bool {
    &&& s.len() == CODE_LEN as nat
    &&& forall|i: int| 0 <= i < s.len() ==> is_code_char(#[trigger] s[i])
}

/// Relies on rand's `Alphanumeric` distribution: every sampled byte is an
/// ASCII digit, upper-case letter or lower-case letter, whatever the draw.
#[verifier::external_body]
fn sample_code_byte() -> (b: u8)
    ensures
        is_code_byte(b),
{
    rand::rng().sample(rand_distr::Alphanumeric)
}

/// Relies on std's `String::from_utf8`: ASCII bytes are valid UTF-8 and
/// decode to the string whose characters are those bytes, one for one.
#[verifier::external_body]
fn ascii_string(bytes: Vec<u8>) -> (s: String)
    requires
        forall|i: int| 0 <= i < bytes@.len() ==> is_code_byte(#[trigger] bytes@[i]),
    ensures
        s@.len() == bytes@.len(),
        forall|i: int| 0 <= i < bytes@.len() ==> #[trigger] s@[i] == bytes@[i] as char,
{
    String::from_utf8(bytes).unwrap()
}

/// Draw a fresh candidate code: `CODE_LEN` characters chosen at random from
/// the alphanumeric alphabet, independently of every earlier draw.
pub fn generate_short_code() -> (s: String)
    ensures
        valid_code(s@),
{
    let mut bytes: Vec<u8> = Vec::new();
    while bytes.len() < CODE_LEN
        invariant
            bytes@.len() <= CODE_LEN as nat,
            forall|i: int| 0 <= i < bytes@.len() ==> is_code_byte(#[trigger] bytes@[i]),
        decreases CODE_LEN - bytes.len(),
    {
        let b = sample_code_byte();
        bytes.push(b);
    }
    let ghost drawn: Seq<u8> = bytes@;
    let s = ascii_string(bytes);
    proof {
        assert forall|i: int| 0 <= i < s@.len() implies is_code_char(#[trigger] s@[i]) by {
            assert(is_code_byte(drawn[i]));
            assert(s@[i] == drawn[i] as char);
        }
    }
    s
}

} // verus!

//! Digests: SHA-256 over bytes, rendered as lowercase hexadecimal text with
//! exactly two characters per byte.

use vstd::prelude::*;
use crate::chain::Chain;

verus! {

/// What SHA-256 yields for a byte sequence.
pub uninterp spec fn sha256_of(data: Seq<u8>) -> Seq<u8>;

/// Relies on `sha2::Sha256::digest`: the 32-byte SHA-256 digest of `data`,
/// which depends on the bytes alone.
#[verifier::external_body]
fn sha256(data: &[u8]) -> (r: Vec<u8>)
    ensures
        r@ == sha256_of(data@),
        r@.len() == 32,
{
    <sha2::Sha256 as sha2::Digest>::digest(data).to_vec()
}

/// Relies on `String::push`: appends one character.
#[verifier::external_body]
pub(crate) fn push_char(s: &mut String, c: char)
    ensures
        final(s)@ == old(s)@.push(c),
{
    s.push(c)
}

/// The lowercase hexadecimal digit of a value below sixteen.
pub open spec fn hex_digit(n: int) -> char {
    if n < 10 {
        (n + 48) as char
    } else {
        (n + 87) as char
    }
}

/// Two hexadecimal characters per byte, high nibble first.
pub open spec fn hex_of(b: Seq<u8>) -> Seq<char>
    decreases b.len(),
{
    if b.len() == 0 {
        Seq::empty()
    } else {
        hex_of(b.drop_last()).push(hex_digit(b.last() as int / 16)).push(hex_digit(b.last() as int % 16))
    }
}

/// The digest of a text: SHA-256 of its UTF-8 bytes, in hexadecimal.
pub open spec fn digest_of_text(t: Seq<char>) -> Seq<char> {
    hex_of(sha256_of(vstd::utf8::encode_utf8(t)))
}

/// The text of the genesis block's predecessor digest: 64 zero characters.
pub open spec fn zero_digest() -> Seq<char> {
    Seq::new(64, |i: int| '0')
}

pub proof fn lemma_hex_len(b: Seq<u8>)
    ensures
        hex_of(b).len() == 2 * b.len(),
    decreases b.len(),
{
    if b.len() > 0 {
        lemma_hex_len(b.drop_last());
    }
}

pub(crate) fn hex_digit_char(n: u8) -> (c: char)
    requires
        n < 16,
    ensures
        c == hex_digit(n as int),
{
    if n < 10 {
        (n + 48) as char
    } else {
        (n + 87) as char
    }
}

impl Chain {
    /// Renders bytes as lowercase hexadecimal, each byte as exactly two digits.
    pub fn hex_to_string(bytes: &[u8]) -> (s: String)
        ensures
            s@ == hex_of(bytes@),
    {
        let mut s = String::new();
        let mut i: usize = 0;
        while i < bytes.len()
            invariant
                i <= bytes@.len(),
                s@ == hex_of(bytes@.subrange(0, i as int)),
            decreases bytes@.len() - i,
        {
            let b = bytes[i];
            push_char(&mut s, hex_digit_char(b / 16));
            push_char(&mut s, hex_digit_char(b % 16));
            assert(bytes@.subrange(0, i + 1).drop_last() =~= bytes@.subrange(0, i as int));
            i += 1;
        }
        assert(bytes@.subrange(0, bytes@.len() as int) =~= bytes@);
        s
    }
}

/// The hexadecimal SHA-256 digest of a text's UTF-8 bytes.
pub fn digest_text(t: &str) -> (r: String)
    ensures
        r@ == digest_of_text(t@),
        r@.len() == 64,
{
    let h = sha256(t.as_bytes());
    proof {
        lemma_hex_len(h@);
    }
    Chain::hex_to_string(h.as_slice())
}

/// The all-zero digest that stands for "no predecessor".
pub fn zero_digest_string() -> (r: String)
    ensures
        r@ == zero_digest(),
{
    let mut s = String::new();
    let mut i: usize = 0;
    while i < 64
        invariant
            i <= 64,
            s@ == Seq::new(i as nat, |k: int| '0'),
        decreases 64 - i,
    {
        push_char(&mut s, '0');
        assert(s@ =~= Seq::new((i + 1) as nat, |k: int| '0'));
        i += 1;
    }
    assert(s@ =~= zero_digest());
    s
}

} // verus!

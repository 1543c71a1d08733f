//! The canonical text of each record: compact JSON with the fields in
//! declaration order. Digests are taken over the UTF-8 bytes of this text.

use vstd::prelude::*;
use crate::digest::hex_digit;
use crate::model::{BlockHeader, Transaction};

verus! {

/// What serde_json writes for a string value: the quoted, escaped text.
pub uninterp spec fn json_string_of(s: Seq<char>) -> Seq<char>;

/// Relies on serde_json's compact rendering of `Value::String`, which quotes
/// and escapes the characters and depends on them alone.
#[verifier::external_body]
fn json_string(s: &str) -> (r: String)
    ensures
        r@ == json_string_of(s@),
{
    serde_json::Value::String(s.to_string()).to_string()
}

/// Base-ten digits of a natural number, most significant first.
pub open spec fn decimal_of(n: nat) -> Seq<char>
    decreases n,
{
    if n < 10 {
        seq![hex_digit(n as int)]
    } else {
        decimal_of(n / 10).push(hex_digit((n % 10) as int))
    }
}

/// Base-ten text of an integer, with a leading minus when negative.
pub open spec fn signed_of(i: int) -> Seq<char> {
    if i < 0 {
        seq!['-'] + decimal_of((-i) as nat)
    } else {
        decimal_of(i as nat)
    }
}

/// An amount in hundredths, written with two decimals.
pub open spec fn amount_of(a: u64) -> Seq<char> {
    decimal_of((a / 100) as nat) + seq!['.', hex_digit(((a % 100) / 10) as int), hex_digit((a % 10) as int)]
}

/// The text of a transfer, given the characters of its parties.
pub open spec fn transfer_text(sender: Seq<char>, receiver: Seq<char>, amount: u64) -> Seq<char> {
    "{\"sender\":"@ + json_string_of(sender) + ",\"receiver\":"@ + json_string_of(receiver)
        + ",\"amount\":"@ + amount_of(amount) + "}"@
}

pub open spec fn transaction_text(t: Transaction) -> Seq<char> {
    transfer_text(t.sender@, t.receiver@, t.amount)
}

/// The text of a header, given its fields.
pub open spec fn header_fields_text(
    timestamp: i64,
    nonce: u32,
    pre_hash: Seq<char>,
    merkle: Seq<char>,
    difficulty: u32,
) -> Seq<char> {
    "{\"timestamp\":"@ + signed_of(timestamp as int) + ",\"nonce\":"@ + decimal_of(nonce as nat)
        + ",\"pre_hash\":"@ + json_string_of(pre_hash) + ",\"merkle\":"@ + json_string_of(merkle)
        + ",\"difficulty\":"@ + decimal_of(difficulty as nat) + "}"@
}

pub open spec fn header_text(h: BlockHeader) -> Seq<char> {
    header_fields_text(h.timestamp, h.nonce, h.pre_hash@, h.merkle@, h.difficulty)
}

/// A record with a canonical text, over which its digest is taken.
pub trait Canonical {
    spec fn canonical_text(&self) -> Seq<char>;

    fn to_canonical(&self) -> (r: String)
        ensures
            r@ == self.canonical_text(),
    ;
}

fn push_decimal(s: &mut String, n: u64)
    ensures
        final(s)@ == old(s)@ + decimal_of(n as nat),
    decreases n,
{
    if n >= 10 {
        push_decimal(s, n / 10);
    }
    crate::digest::push_char(s, crate::digest::hex_digit_char((n % 10) as u8));
    assert(final(s)@ =~= old(s)@ + decimal_of(n as nat));
}

fn push_str(s: &mut String, t: &str)
    ensures
        final(s)@ == old(s)@ + t@,
{
    s.append(t);
}

impl Canonical for String {
    open spec fn canonical_text(&self) -> Seq<char> {
        json_string_of(self@)
    }

    fn to_canonical(&self) -> (r: String) {
        json_string(self.as_str())
    }
}

impl Canonical for Transaction {
    open spec fn canonical_text(&self) -> Seq<char> {
        transaction_text(*self)
    }

    fn to_canonical(&self) -> (r: String) {
        let mut s = String::new();
        push_str(&mut s, "{\"sender\":");
        let q = json_string(self.sender.as_str());
        push_str(&mut s, q.as_str());
        push_str(&mut s, ",\"receiver\":");
        let q = json_string(self.receiver.as_str());
        push_str(&mut s, q.as_str());
        push_str(&mut s, ",\"amount\":");
        push_decimal(&mut s, self.amount / 100);
        crate::digest::push_char(&mut s, '.');
        crate::digest::push_char(&mut s, crate::digest::hex_digit_char(((self.amount % 100) / 10) as u8));
        crate::digest::push_char(&mut s, crate::digest::hex_digit_char((self.amount % 10) as u8));
        push_str(&mut s, "}");
        assert(s@ =~= transaction_text(*self));
        s
    }
}

impl Canonical for BlockHeader {
    open spec fn canonical_text(&self) -> Seq<char> {
        header_text(*self)
    }

    fn to_canonical(&self) -> (r: String) {
        let mut s = String::new();
        push_str(&mut s, "{\"timestamp\":");
        if self.timestamp < 0 {
            crate::digest::push_char(&mut s, '-');
            let m: u64 = (0i128 - self.timestamp as i128) as u64;
            push_decimal(&mut s, m);
        } else {
            push_decimal(&mut s, self.timestamp as u64);
        }
        push_str(&mut s, ",\"nonce\":");
        push_decimal(&mut s, self.nonce as u64);
        push_str(&mut s, ",\"pre_hash\":");
        let q = json_string(self.pre_hash.as_str());
        push_str(&mut s, q.as_str());
        push_str(&mut s, ",\"merkle\":");
        let q = json_string(self.merkle.as_str());
        push_str(&mut s, q.as_str());
        push_str(&mut s, ",\"difficulty\":");
        push_decimal(&mut s, self.difficulty as u64);
        push_str(&mut s, "}");
        assert(s@ =~= header_text(*self));
        s
    }
}

} // verus!

//! Proof of work: a header is accepted when the first `difficulty`
//! characters of its digest are all `'0'`.
//!
//! On a hexadecimal digest this is the same as reading that prefix as a
//! base-ten number and finding zero; an empty prefix is accepted.

use vstd::prelude::*;
use crate::canonical::header_fields_text;
use crate::chain::Chain;
use crate::digest::digest_of_text;
use crate::model::BlockHeader;

verus! {

/// The first `difficulty` characters of `d` exist and are all `'0'`.
pub open spec fn meets_difficulty(d: Seq<char>, difficulty: nat) -> bool {
    difficulty <= d.len() && forall|i: int| 0 <= i < difficulty ==> d[i] == '0'
}

/// The digest of a header with the given fields.
pub open spec fn fields_digest(
    timestamp: i64,
    nonce: u32,
    pre_hash: Seq<char>,
    merkle: Seq<char>,
    difficulty: u32,
) -> Seq<char> {
    digest_of_text(header_fields_text(timestamp, nonce, pre_hash, merkle, difficulty))
}

/// The number of characters in a digest.
pub const DIGEST_LEN: u32 = 64;

/// Whether a header with the given fields satisfies its own difficulty. A
/// difficulty longer than a digest is never satisfied.
pub open spec fn pow_accepts(
    timestamp: i64,
    nonce: u32,
    pre_hash: Seq<char>,
    merkle: Seq<char>,
    difficulty: u32,
) -> bool {
    &&& difficulty <= DIGEST_LEN
    &&& meets_difficulty(
        fields_digest(timestamp, nonce, pre_hash, merkle, difficulty),
        difficulty as nat,
    )
}

pub open spec fn header_digest(h: BlockHeader) -> Seq<char> {
    fields_digest(h.timestamp, h.nonce, h.pre_hash@, h.merkle@, h.difficulty)
}

pub open spec fn header_accepted(h: BlockHeader) -> bool {
    pow_accepts(h.timestamp, h.nonce, h.pre_hash@, h.merkle@, h.difficulty)
}

/// Whether the first `difficulty` characters of `digest` are all `'0'`.
pub fn meets_difficulty_check(digest: &str, difficulty: u32) -> (r: bool)
    ensures
        r == meets_difficulty(digest@, difficulty as nat),
{
    let n = digest.unicode_len();
    if difficulty as usize > n {
        return false;
    }
    let mut i: usize = 0;
    while i < difficulty as usize
        invariant
            difficulty <= digest@.len(),
            i <= difficulty,
            forall|k: int| 0 <= k < i ==> digest@[k] == '0',
        decreases difficulty - i,
    {
        if digest.get_char(i) != '0' {
            return false;
        }
        i += 1;
    }
    true
}

impl BlockHeader {
    /// Runs the acceptance check on this header as it stands.
    pub fn is_mined(&self) -> (r: bool)
        ensures
            r == header_accepted(*self),
    {
        let d = Chain::hash(self);
        meets_difficulty_check(d.as_str(), self.difficulty)
    }
}

impl Chain {
    /// Searches the nonces from the header's current one upwards and stops at
    /// the first whose header is accepted. Returns false, with the nonce as it
    /// was, when no nonce up to `u32::MAX` is accepted.
    pub fn proof_of_work(header: &mut BlockHeader) -> (found: bool)
        ensures
            final(header).timestamp == old(header).timestamp,
            final(header).pre_hash == old(header).pre_hash,
            final(header).merkle == old(header).merkle,
            final(header).difficulty == old(header).difficulty,
            found == exists|n: u32|
                old(header).nonce <= n && #[trigger] pow_accepts(
                    old(header).timestamp,
                    n,
                    old(header).pre_hash@,
                    old(header).merkle@,
                    old(header).difficulty,
                ),
            found ==> header_accepted(*final(header)),
            found ==> old(header).nonce <= final(header).nonce,
            found ==> forall|n: u32|
                old(header).nonce <= n < final(header).nonce ==> !#[trigger] pow_accepts(
                    old(header).timestamp,
                    n,
                    old(header).pre_hash@,
                    old(header).merkle@,
                    old(header).difficulty,
                ),
            !found ==> final(header).nonce == old(header).nonce,
            old(header).difficulty > DIGEST_LEN ==> !found,
    {
        if header.difficulty > DIGEST_LEN {
            return false;
        }
        let mut probe = BlockHeader {
            timestamp: header.timestamp,
            nonce: header.nonce,
            pre_hash: header.pre_hash.clone(),
            merkle: header.merkle.clone(),
            difficulty: header.difficulty,
        };
        let first = header.nonce;
        let mut found = false;
        loop
            invariant_except_break
                !found,
            invariant
                probe.timestamp == header.timestamp,
                probe.pre_hash == header.pre_hash,
                probe.merkle == header.merkle,
                probe.difficulty == header.difficulty,
                header == old(header),
                first == header.nonce,
                first <= probe.nonce,
                forall|n: u32|
                    first <= n < probe.nonce ==> !#[trigger] pow_accepts(
                        probe.timestamp,
                        n,
                        probe.pre_hash@,
                        probe.merkle@,
                        probe.difficulty,
                    ),
            ensures
                probe.timestamp == header.timestamp,
                probe.pre_hash == header.pre_hash,
                probe.merkle == header.merkle,
                probe.difficulty == header.difficulty,
                header == old(header),
                found ==> header_accepted(probe) && first <= probe.nonce,
                found ==> forall|n: u32|
                    first <= n < probe.nonce ==> !#[trigger] pow_accepts(
                        probe.timestamp,
                        n,
                        probe.pre_hash@,
                        probe.merkle@,
                        probe.difficulty,
                    ),
                !found ==> forall|n: u32|
                    first <= n ==> !#[trigger] pow_accepts(
                        probe.timestamp,
                        n,
                        probe.pre_hash@,
                        probe.merkle@,
                        probe.difficulty,
                    ),
            decreases u32::MAX - probe.nonce,
        {
            if probe.is_mined() {
                found = true;
                break;
            }
            if probe.nonce == u32::MAX {
                assert forall|n: u32|
                    first <= n implies !#[trigger] pow_accepts(
                        probe.timestamp,
                        n,
                        probe.pre_hash@,
                        probe.merkle@,
                        probe.difficulty,
                    ) by {
                    if n == u32::MAX {
                    }
                }
                break;
            }
            probe.nonce = probe.nonce + 1;
        }
        if found {
            header.nonce = probe.nonce;
        }
        found
    }
}

/// At difficulty zero every header is accepted, so mining stops at the
/// nonce it starts from.
pub proof fn lemma_zero_difficulty_accepts(
    timestamp: i64,
    nonce: u32,
    pre_hash: Seq<char>,
    merkle: Seq<char>,
)
    ensures
        pow_accepts(timestamp, nonce, pre_hash, merkle, 0),
{
}

} // verus!

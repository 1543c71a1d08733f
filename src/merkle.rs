//! The Merkle digest of an ordered list of transactions.

use vstd::prelude::*;
use crate::canonical::{json_string_of, transaction_text};
use crate::chain::Chain;
use crate::digest::{digest_of_text, digest_text};
use crate::model::Transaction;

verus! {

/// The digest of a string record: the digest of its quoted JSON text.
pub open spec fn string_digest(s: Seq<char>) -> Seq<char> {
    digest_of_text(json_string_of(s))
}

/// The digest of each transaction, in order.
pub open spec fn leaf_digests(txs: Seq<Transaction>) -> Seq<Seq<char>> {
    txs.map_values(|t: Transaction| digest_of_text(transaction_text(t)))
}

/// An odd number of leaves is made even by repeating the last one.
pub open spec fn even_leaves(l: Seq<Seq<char>>) -> Seq<Seq<char>> {
    if l.len() % 2 == 1 {
        l.push(l.last())
    } else {
        l
    }
}

/// Takes the two leftmost digests, appends the digest of their
/// concatenation at the right end, and repeats until one digest is left.
pub open spec fn merkle_fold(q: Seq<Seq<char>>) -> Seq<char>
    decreases q.len(),
{
    if q.len() == 0 {
        Seq::empty()
    } else if q.len() == 1 {
        q[0]
    } else {
        merkle_fold(q.subrange(2, q.len() as int).push(string_digest(q[0] + q[1])))
    }
}

/// The Merkle digest of a list of leaf digests; for no leaves, the digest of
/// the empty byte sequence.
pub open spec fn merkle_of_leaves(l: Seq<Seq<char>>) -> Seq<char> {
    if l.len() == 0 {
        digest_of_text(Seq::empty())
    } else {
        merkle_fold(even_leaves(l))
    }
}

pub open spec fn merkle_root(txs: Seq<Transaction>) -> Seq<char> {
    merkle_of_leaves(leaf_digests(txs))
}

pub open spec fn views(q: Seq<String>) -> Seq<Seq<char>> {
    q.map_values(|s: String| s@)
}

impl Chain {
    /// The Merkle digest of `curr_trans`, in order.
    pub fn get_merkle(curr_trans: &Vec<Transaction>) -> (r: String)
        ensures
            r@ == merkle_root(curr_trans@),
            r@.len() == 64,
    {
        if curr_trans.len() == 0 {
            proof {
                reveal_strlit("");
            }
            assert(""@ =~= Seq::<char>::empty());
            return digest_text("");
        }
        let mut merkle: Vec<String> = Vec::new();
        let mut i: usize = 0;
        while i < curr_trans.len()
            invariant
                i <= curr_trans@.len(),
                merkle@.len() == i,
                forall|k: int| 0 <= k < i ==> (#[trigger] merkle@[k])@.len() == 64,
                forall|k: int|
                    0 <= k < i ==> (#[trigger] merkle@[k])@ == digest_of_text(
                        transaction_text(curr_trans@[k]),
                    ),
            decreases curr_trans@.len() - i,
        {
            let h = Chain::hash(&curr_trans[i]);
            merkle.push(h);
            i += 1;
        }
        assert(views(merkle@) =~= leaf_digests(curr_trans@));
        if merkle.len() % 2 == 1 {
            let last = merkle[merkle.len() - 1].clone();
            merkle.push(last);
        }
        assert(views(merkle@) =~= even_leaves(leaf_digests(curr_trans@)));
        while merkle.len() > 1
            invariant
                merkle@.len() >= 1,
                forall|k: int| 0 <= k < merkle@.len() ==> (#[trigger] merkle@[k])@.len() == 64,
                merkle_fold(views(merkle@)) == merkle_root(curr_trans@),
            decreases merkle@.len(),
        {
            let ghost q = views(merkle@);
            let mut h1 = merkle.remove(0);
            let h2 = merkle.remove(0);
            h1.append(h2.as_str());
            let nh = Chain::hash(&h1);
            merkle.push(nh);
            assert(views(merkle@) =~= q.subrange(2, q.len() as int).push(string_digest(q[0] + q[1])));
        }
        merkle.pop().unwrap()
    }
}

/// The Merkle digest depends on the transactions' contents alone: two lists
/// with the same transactions in the same order have the same digest.
pub proof fn lemma_merkle_deterministic(a: Seq<Transaction>, b: Seq<Transaction>)
    requires
        a.len() == b.len(),
        forall|i: int|
            0 <= i < a.len() ==> (#[trigger] a[i]).sender@ == b[i].sender@ && a[i].receiver@
                == b[i].receiver@ && a[i].amount == b[i].amount,
    ensures
        merkle_root(a) == merkle_root(b),
{
    assert(leaf_digests(a) =~= leaf_digests(b));
}

} // verus!

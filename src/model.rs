//! The ledger's records: transactions, block headers and blocks.

use vstd::prelude::*;

verus! {

/// A transfer of `amount` hundredths of a coin from `sender` to `receiver`.
#[derive(Clone, Debug)]
pub struct Transaction {
    pub sender: String,
    pub receiver: String,
    pub amount: u64,
}

/// The mined part of a block. Only `nonce` changes, and only while mining.
#[derive(Debug)]
pub struct BlockHeader {
    /// Milliseconds since the Unix epoch when the block was assembled.
    pub timestamp: i64,
    pub nonce: u32,
    /// Digest of the previous block's header, or the all-zero digest.
    pub pre_hash: String,
    /// Merkle digest of the block's transactions.
    pub merkle: String,
    /// Length of the digest prefix that must be all zeros.
    pub difficulty: u32,
}

/// A mined block: its header and the transactions it carries, the mining
/// reward first.
#[derive(Debug)]
pub struct Block {
    pub header: BlockHeader,
    pub count: usize,
    pub transactions: Vec<Transaction>,
}

impl Transaction {
    pub fn new(sender: String, receiver: String, amount: u64) -> (t: Transaction)
        ensures
            t.sender == sender,
            t.receiver == receiver,
            t.amount == amount,
    {
        Transaction { sender, receiver, amount }
    }
}

} // verus!

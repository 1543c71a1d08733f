//! The ledger: mined blocks, the pending transactions, and the parameters of
//! the next block.

use vstd::prelude::*;
use crate::canonical::{transfer_text, Canonical};
use crate::digest::{digest_of_text, digest_text, zero_digest, zero_digest_string};
use crate::merkle::{leaf_digests, merkle_of_leaves, merkle_root};
use crate::model::{Block, BlockHeader, Transaction};
use crate::pow::{header_accepted, header_digest, pow_accepts};

verus! {

/// An append-only list of mined blocks and the transactions waiting for the
/// next one.
pub struct Chain {
    chain: Vec<Block>,
    curr_trans: Vec<Transaction>,
    difficulty: u32,
    miner_addr: String,
    reward: u64,
}

/// What a chain holds, as values.
pub struct ChainView {
    pub blocks: Seq<Block>,
    pub pending: Seq<Transaction>,
    pub difficulty: u32,
    pub miner: Seq<char>,
    pub reward: u64,
}

impl View for Chain {
    type V = ChainView;

    closed spec fn view(&self) -> ChainView {
        ChainView {
            blocks: self.chain@,
            pending: self.curr_trans@,
            difficulty: self.difficulty,
            miner: self.miner_addr@,
            reward: self.reward,
        }
    }
}

/// The reward a fresh chain pays per block, in hundredths: one hundred coins.
pub const DEFAULT_REWARD: u64 = 10000;

/// The digest that the next block will name as its predecessor.
pub open spec fn last_digest(blocks: Seq<Block>) -> Seq<char> {
    if blocks.len() == 0 {
        zero_digest()
    } else {
        header_digest(blocks.last().header)
    }
}

/// A reward transaction: from `"Root"` to the miner, for the reward.
pub open spec fn is_reward(t: Transaction, miner: Seq<char>, reward: u64) -> bool {
    &&& t.sender@ == "Root"@
    &&& t.receiver@ == miner
    &&& t.amount == reward
}

/// What a mined block satisfies on its own.
pub open spec fn block_valid(b: Block) -> bool {
    &&& b.count == b.transactions@.len()
    &&& b.transactions@.len() >= 1
    &&& b.transactions@[0].sender@ == "Root"@
    &&& b.header.merkle@ == merkle_root(b.transactions@)
    &&& header_accepted(b.header)
}

/// Every block is valid, the first names the all-zero digest as its
/// predecessor, and every later one names the digest of the header before it.
pub open spec fn ledger_valid(blocks: Seq<Block>) -> bool {
    &&& forall|i: int| 0 <= i < blocks.len() ==> block_valid(#[trigger] blocks[i])
    &&& blocks.len() > 0 ==> blocks[0].header.pre_hash@ == zero_digest()
    &&& forall|i: int|
        0 < i < blocks.len() ==> (#[trigger] blocks[i]).header.pre_hash@ == header_digest(
            blocks[i - 1].header,
        )
}

/// The leaf digests of the next block: the reward first, then the pending
/// transactions in the order they came.
pub open spec fn batch_leaves(v: ChainView) -> Seq<Seq<char>> {
    seq![digest_of_text(transfer_text("Root"@, v.miner, v.reward))] + leaf_digests(v.pending)
}

pub open spec fn batch_merkle(v: ChainView) -> Seq<char> {
    merkle_of_leaves(batch_leaves(v))
}

/// Whether some nonce makes the next block's header acceptable.
pub open spec fn minable(v: ChainView, timestamp: i64) -> bool {
    exists|n: u32|
        #[trigger] pow_accepts(timestamp, n, last_digest(v.blocks), batch_merkle(v), v.difficulty)
}

/// `b` is the block that `v` yields when assembled at `timestamp`: the
/// reward and then the pending transactions, the first nonce that is
/// accepted, and links to the last block of `v`.
pub open spec fn next_block(v: ChainView, timestamp: i64, b: Block) -> bool {
    &&& b.header.timestamp == timestamp
    &&& b.header.pre_hash@ == last_digest(v.blocks)
    &&& b.header.merkle@ == batch_merkle(v)
    &&& b.header.difficulty == v.difficulty
    &&& header_accepted(b.header)
    &&& forall|n: u32|
        n < b.header.nonce ==> !#[trigger] pow_accepts(
            timestamp,
            n,
            last_digest(v.blocks),
            batch_merkle(v),
            v.difficulty,
        )
    &&& b.transactions@.len() == v.pending.len() + 1
    &&& is_reward(b.transactions@[0], v.miner, v.reward)
    &&& b.transactions@.subrange(1, b.transactions@.len() as int) == v.pending
    &&& b.count == b.transactions@.len()
}

/// The state of a chain before its genesis block.
pub open spec fn fresh(miner: Seq<char>, difficulty: u32) -> ChainView {
    ChainView {
        blocks: Seq::empty(),
        pending: Seq::empty(),
        difficulty,
        miner,
        reward: DEFAULT_REWARD,
    }
}

impl Chain {
    /// The digest of a record: SHA-256 of its canonical text, in hexadecimal.
    pub fn hash<T: Canonical>(item: &T) -> (r: String)
        ensures
            r@ == digest_of_text(item.canonical_text()),
            r@.len() == 64,
    {
        let text = item.to_canonical();
        digest_text(text.as_str())
    }

    pub open spec fn wf(&self) -> bool {
        ledger_valid(self@.blocks)
    }

    /// A chain for `miner_addr` whose genesis block is assembled at
    /// `timestamp` (milliseconds since the Unix epoch). The chain stays empty
    /// when no nonce mines that block.
    pub fn new(miner_addr: String, difficulty: u32, timestamp: i64) -> (c: Chain)
        ensures
            c.wf(),
            c@.pending == Seq::<Transaction>::empty(),
            c@.difficulty == difficulty,
            c@.miner == miner_addr@,
            c@.reward == DEFAULT_REWARD,
            c@.blocks.len() == 1 <==> minable(fresh(miner_addr@, difficulty), timestamp),
            c@.blocks.len() <= 1,
            c@.blocks.len() == 1 ==> next_block(
                fresh(miner_addr@, difficulty),
                timestamp,
                c@.blocks[0],
            ),
            c@.blocks.len() == 1 ==> c@.blocks[0].header.pre_hash@ == zero_digest(),
            c@.blocks.len() == 1 ==> c@.blocks[0].transactions@.len() == 1,
            difficulty == 0 ==> c@.blocks.len() == 1 && c@.blocks[0].header.nonce == 0,
    {
        let mut chain = Chain {
            chain: Vec::new(),
            curr_trans: Vec::new(),
            difficulty,
            miner_addr,
            reward: DEFAULT_REWARD,
        };
        let ghost v = fresh(chain.miner_addr@, difficulty);
        assert(chain@ == v);
        chain.generate_new_block(timestamp);
        if difficulty == 0 {
            assert(pow_accepts(timestamp, 0, last_digest(v.blocks), batch_merkle(v), 0));
        }
        chain
    }

    /// Appends a transfer to the pending transactions.
    pub fn new_transaction(&mut self, sender: String, receiver: String, amount: u64) -> (r: bool)
        ensures
            r,
            final(self)@.pending.len() == old(self)@.pending.len() + 1,
            final(self)@.pending.drop_last() == old(self)@.pending,
            final(self)@.pending.last() == (Transaction { sender, receiver, amount }),
            final(self)@.blocks == old(self)@.blocks,
            final(self)@.difficulty == old(self)@.difficulty,
            final(self)@.miner == old(self)@.miner,
            final(self)@.reward == old(self)@.reward,
    {
        let new_trans = Transaction::new(sender, receiver, amount);
        self.curr_trans.push(new_trans);
        assert(self@.pending.drop_last() =~= old(self)@.pending);
        true
    }

    /// The digest of the last block's header, or the all-zero digest when
    /// there is no block yet.
    pub fn last_block_hash(&self) -> (r: String)
        ensures
            r@ == last_digest(self@.blocks),
            r@.len() == 64,
    {
        if self.chain.len() == 0 {
            return zero_digest_string();
        }
        Chain::hash(&self.chain[self.chain.len() - 1].header)
    }

    /// Sets the difficulty of the blocks mined from now on.
    pub fn update_difficulty(&mut self, difficulty: u32) -> (r: bool)
        ensures
            r,
            final(self)@ == (ChainView { difficulty, ..old(self)@ }),
    {
        self.difficulty = difficulty;
        true
    }

    /// Sets the reward, in hundredths, of the blocks mined from now on.
    pub fn update_reward(&mut self, reward: u64) -> (r: bool)
        ensures
            r,
            final(self)@ == (ChainView { reward, ..old(self)@ }),
    {
        self.reward = reward;
        true
    }

    /// Assembles the next block at `timestamp` (milliseconds since the Unix
    /// epoch) from the reward and the pending transactions, mines it and
    /// appends it. When no nonce is accepted the chain is left as it was and
    /// the result is false; at difficulty zero the first nonce is accepted.
    pub fn generate_new_block(&mut self, timestamp: i64) -> (r: bool)
        requires
            old(self).wf(),
        ensures
            final(self).wf(),
            r == minable(old(self)@, timestamp),
            old(self)@.difficulty == 0 ==> r,
            r ==> final(self)@.blocks.len() == old(self)@.blocks.len() + 1,
            r ==> final(self)@.blocks.drop_last() == old(self)@.blocks,
            r ==> next_block(old(self)@, timestamp, final(self)@.blocks.last()),
            r ==> final(self)@ == (ChainView {
                blocks: final(self)@.blocks,
                pending: Seq::empty(),
                ..old(self)@
            }),
            !r ==> final(self)@ == old(self)@,
    {
        let ghost v = self@;
        let pre_hash = self.last_block_hash();
        let reward_trans = Transaction::new(
            String::from_str("Root"),
            self.miner_addr.clone(),
            self.reward,
        );
        let mut txs: Vec<Transaction> = Vec::new();
        txs.push(reward_trans);
        txs.append(&mut self.curr_trans);
        assert(leaf_digests(txs@) =~= batch_leaves(v));
        if self.difficulty == 0 {
            assert(pow_accepts(timestamp, 0, last_digest(v.blocks), batch_merkle(v), 0));
        }
        let merkle = Chain::get_merkle(&txs);
        let mut header = BlockHeader {
            timestamp,
            nonce: 0,
            pre_hash,
            merkle,
            difficulty: self.difficulty,
        };
        let found = Chain::proof_of_work(&mut header);
        if !found {
            txs.remove(0);
            self.curr_trans = txs;
            assert(self@.pending =~= v.pending);
            assert(self@ == v);
            return false;
        }
        assert(pow_accepts(timestamp, header.nonce, last_digest(v.blocks), batch_merkle(v), v.difficulty));
        let count = txs.len();
        let block = Block { header, count, transactions: txs };
        assert(block.transactions@.subrange(1, block.transactions@.len() as int) =~= v.pending);
        self.chain.push(block);
        assert(self@.blocks.drop_last() =~= v.blocks);
        assert(forall|i: int| 0 <= i < v.blocks.len() ==> self@.blocks[i] == v.blocks[i]);
        true
    }

    /// The mined blocks, oldest first.
    pub fn blocks(&self) -> (r: &Vec<Block>)
        ensures
            r@ == self@.blocks,
    {
        &self.chain
    }

    /// The transactions waiting for the next block, in the order they came.
    pub fn pending(&self) -> (r: &Vec<Transaction>)
        ensures
            r@ == self@.pending,
    {
        &self.curr_trans
    }

    pub fn difficulty(&self) -> (r: u32)
        ensures
            r == self@.difficulty,
    {
        self.difficulty
    }

    /// The reward per block, in hundredths.
    pub fn reward(&self) -> (r: u64)
        ensures
            r == self@.reward,
    {
        self.reward
    }

    pub fn miner_addr(&self) -> (r: &String)
        ensures
            r@ == self@.miner,
    {
        &self.miner_addr
    }
}

/// Every block after the first names the digest of the header before it as
/// its predecessor, and the first names the all-zero digest.
pub proof fn lemma_blocks_linked(c: &Chain)
    requires
        c.wf(),
    ensures
        forall|i: int|
            0 < i < c@.blocks.len() ==> (#[trigger] c@.blocks[i]).header.pre_hash@
                == header_digest(c@.blocks[i - 1].header),
        c@.blocks.len() > 0 ==> c@.blocks[0].header.pre_hash@ == zero_digest(),
{
}

/// Every mined header passes the acceptance check again with its final nonce.
pub proof fn lemma_mined_headers_accepted(c: &Chain)
    requires
        c.wf(),
    ensures
        forall|i: int| 0 <= i < c@.blocks.len() ==> header_accepted(#[trigger] c@.blocks[i].header),
{
    assert forall|i: int| 0 <= i < c@.blocks.len() implies header_accepted(
        #[trigger] c@.blocks[i].header,
    ) by {
        assert(block_valid(c@.blocks[i]));
    }
}

} // verus!

use crate::types::{Address, Digest, Word};
use vstd::prelude::*;

verus! {

/// What a transaction does: create a contract, or call an address.
#[derive(Clone, Copy, Debug)]
pub enum Action {
    Create,
    Call(Address),
}

/// A transaction as the scheduler sees it: its (already recovered) sender
/// and its action. Payload, value and gas are the executor's concern.
#[derive(Clone, Copy, Debug)]
pub struct Transaction {
    pub sender: Address,
    pub action: Action,
}

/// The block header fields that the execution environment is built from.
#[derive(Clone, Copy, Debug)]
pub struct Header {
    pub number: u64,
    pub author: Address,
    pub timestamp: u64,
    pub difficulty: Word,
    pub gas_limit: Word,
    pub parent_hash: Digest,
}

/// An ordered sequence of transactions and its header.
#[derive(Clone, Debug)]
pub struct Block {
    pub header: Header,
    pub transactions: Vec<Transaction>,
}

/// A balance credit: `amount` is added to the balance of `address`.
#[derive(Clone, Copy, Debug)]
pub struct Credit {
    pub address: Address,
    pub amount: Word,
}

/// The reward of one block: the miner's credit and the uncles' credits.
#[derive(Clone, Debug)]
pub struct Reward {
    pub miner: Credit,
    pub uncles: Vec<Credit>,
}

/// The credits of a reward in the order they are applied: miner first, then
/// each uncle in order.
pub open spec fn credits_of(r: Reward) -> Seq<Credit> {
    seq![r.miner] + r.uncles@
}

impl Reward {
    /// The credits to apply, miner first, then the uncles in order.
    pub fn credits(&self) -> (r: Vec<Credit>)
        ensures
            r@ == credits_of(*self),
    {
        let mut out: Vec<Credit> = Vec::new();
        out.push(self.miner);
        let mut i: usize = 0;
        while i < self.uncles.len()
            invariant
                0 <= i <= self.uncles@.len(),
                out@ == seq![self.miner] + self.uncles@.subrange(0, i as int),
            decreases self.uncles@.len() - i,
        {
            out.push(self.uncles[i]);
            proof {
                assert(self.uncles@.subrange(0, i + 1) == self.uncles@.subrange(0, i as int).push(self.uncles@[i as int]));
            }
            i = i + 1;
        }
        assert(self.uncles@.subrange(0, self.uncles@.len() as int) == self.uncles@);
        out
    }
}

/// Block-level execution parameters shared with every worker.
#[derive(Clone, Debug)]
pub struct EnvContext {
    pub number: u64,
    pub author: Address,
    pub timestamp: u64,
    pub difficulty: Word,
    pub gas_limit: Word,
    pub gas_used: Word,
    pub last_hashes: Vec<Digest>,
}

/// The context after it was updated for a block with header `h`: the header's
/// fields are taken over, no gas is used yet, the recent hashes are kept.
pub open spec fn env_for_header(e: EnvContext, h: Header) -> EnvContext {
    EnvContext {
        number: h.number,
        author: h.author,
        timestamp: h.timestamp,
        difficulty: h.difficulty,
        gas_limit: h.gas_limit,
        gas_used: [0u64, 0u64, 0u64, 0u64],
        last_hashes: e.last_hashes,
    }
}

impl EnvContext {
    /// A context for the given recent block hashes, all other fields zero.
    pub fn new(last_hashes: Vec<Digest>) -> (r: Self)
        ensures
            r.last_hashes@ == last_hashes@,
            r.number == 0,
            r.timestamp == 0,
    {
        EnvContext {
            number: 0,
            author: [0u8; 20],
            timestamp: 0,
            difficulty: [0u64; 4],
            gas_limit: [0u64; 4],
            gas_used: [0u64; 4],
            last_hashes,
        }
    }

    /// Takes over the header's fields for the block about to run.
    pub fn update_from_header(&mut self, h: &Header)
        ensures
            *final(self) == env_for_header(*old(self), *h),
    {
        self.number = h.number;
        self.author = h.author;
        self.timestamp = h.timestamp;
        self.difficulty = h.difficulty;
        self.gas_limit = h.gas_limit;
        self.gas_used = [0u64, 0u64, 0u64, 0u64];
    }
}

} // verus!

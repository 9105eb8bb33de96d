use vstd::prelude::*;

verus! {

/// A symbolic block reference, resolved against the chain's current state.
#[derive(Debug, Clone, Copy, PartialEq, Eq, Structural)]
pub enum BlockTag {
    Latest,
    Finalized,
    Safe,
    Earliest,
    Pending,
}

/// A block reference: a concrete number, or a tag that the provider resolves.
#[derive(Debug, Clone, Copy, PartialEq, Eq, Structural)]
pub enum BlockRef {
    Number(u64),
    Tag(BlockTag),
}

/// An inclusive block range; an absent end stands for the single block `start`.
#[derive(Debug, Clone, Copy, PartialEq, Eq, Structural)]
pub struct BlockRange {
    pub start: BlockRef,
    pub end: Option<BlockRef>,
}

impl BlockRange {
    pub fn new(start: BlockRef, end: Option<BlockRef>) -> (r: BlockRange)
        ensures
            r.start == start,
            r.end == end,
    {
        BlockRange { start, end }
    }
}

/// A query entity as handed over by the query front end. Only `Block` is
/// resolved here; the other kinds carry the text they were written as.
#[derive(Debug, Clone, PartialEq, Eq)]
pub enum EntityId {
    Block(BlockRange),
    Transaction(String),
    Account(String),
    Logs(String),
}

/// The closed set of block fields that a query can select.
#[derive(Debug, Clone, Copy, PartialEq, Eq, Structural)]
pub enum BlockField {
    Timestamp,
    Number,
    Hash,
    ParentHash,
    Size,
    StateRoot,
    TransactionsRoot,
    ReceiptsRoot,
    LogsBloom,
    ExtraData,
    MixHash,
    TotalDifficulty,
    BaseFeePerGas,
    WithdrawalsRoot,
    BlobGasUsed,
    ExcessBlobGas,
    ParentBeaconBlockRoot,
}

/// A block as the provider returned it. Each value may be missing, depending
/// on the chain and the fork. 256-bit quantities are held as 32 big-endian bytes.
#[derive(Debug, Clone, PartialEq, Eq)]
pub struct RawBlock {
    pub number: Option<u64>,
    pub hash: Option<[u8; 32]>,
    pub parent_hash: Option<[u8; 32]>,
    pub timestamp: Option<u64>,
    pub size: Option<[u8; 32]>,
    pub state_root: Option<[u8; 32]>,
    pub transactions_root: Option<[u8; 32]>,
    pub receipts_root: Option<[u8; 32]>,
    pub logs_bloom: Option<Vec<u8>>,
    pub extra_data: Option<Vec<u8>>,
    pub mix_hash: Option<[u8; 32]>,
    pub total_difficulty: Option<[u8; 32]>,
    pub base_fee_per_gas: Option<u128>,
    pub withdrawals_root: Option<[u8; 32]>,
    pub blob_gas_used: Option<u128>,
    pub excess_blob_gas: Option<u128>,
    pub parent_beacon_block_root: Option<[u8; 32]>,
}

/// One resolved block. `number` is always present; every other slot is set
/// only when its field was selected and the provider had a value for it.
#[derive(Debug, Clone, PartialEq, Eq)]
pub struct BlockRecord {
    pub number: u64,
    pub timestamp: Option<u64>,
    pub hash: Option<[u8; 32]>,
    pub parent_hash: Option<[u8; 32]>,
    pub size: Option<[u8; 32]>,
    pub state_root: Option<[u8; 32]>,
    pub transactions_root: Option<[u8; 32]>,
    pub receipts_root: Option<[u8; 32]>,
    pub logs_bloom: Option<Vec<u8>>,
    pub extra_data: Option<Vec<u8>>,
    pub mix_hash: Option<[u8; 32]>,
    pub total_difficulty: Option<[u8; 32]>,
    pub base_fee_per_gas: Option<u128>,
    pub withdrawals_root: Option<[u8; 32]>,
    pub blob_gas_used: Option<u128>,
    pub excess_blob_gas: Option<u128>,
    pub parent_beacon_block_root: Option<[u8; 32]>,
}

} // verus!

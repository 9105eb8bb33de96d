use vstd::prelude::*;

use crate::types::{BlockField, BlockRecord, RawBlock};

verus! {

/// `value` when `field` is among `fields`, absent otherwise.
pub open spec fn select<T>(fields: Seq<BlockField>, field: BlockField, value: Option<T>) -> Option<T> {
    if fields.contains(field) {
        value
    } else {
        None
    }
}

/// The record that block `number`, fetched as `raw`, yields for the selection `fields`.
pub open spec fn project_spec(raw: RawBlock, number: u64, fields: Seq<BlockField>) -> BlockRecord {
    BlockRecord {
        number,
        timestamp: select(fields, BlockField::Timestamp, raw.timestamp),
        hash: select(fields, BlockField::Hash, raw.hash),
        parent_hash: select(fields, BlockField::ParentHash, raw.parent_hash),
        size: select(fields, BlockField::Size, raw.size),
        state_root: select(fields, BlockField::StateRoot, raw.state_root),
        transactions_root: select(fields, BlockField::TransactionsRoot, raw.transactions_root),
        receipts_root: select(fields, BlockField::ReceiptsRoot, raw.receipts_root),
        logs_bloom: select(fields, BlockField::LogsBloom, raw.logs_bloom),
        extra_data: select(fields, BlockField::ExtraData, raw.extra_data),
        mix_hash: select(fields, BlockField::MixHash, raw.mix_hash),
        total_difficulty: select(fields, BlockField::TotalDifficulty, raw.total_difficulty),
        base_fee_per_gas: select(fields, BlockField::BaseFeePerGas, raw.base_fee_per_gas),
        withdrawals_root: select(fields, BlockField::WithdrawalsRoot, raw.withdrawals_root),
        blob_gas_used: select(fields, BlockField::BlobGasUsed, raw.blob_gas_used),
        excess_blob_gas: select(fields, BlockField::ExcessBlobGas, raw.excess_blob_gas),
        parent_beacon_block_root: select(
            fields,
            BlockField::ParentBeaconBlockRoot,
            raw.parent_beacon_block_root,
        ),
    }
}

/// Whether the record holds a value for `field`.
pub open spec fn record_has(r: BlockRecord, field: BlockField) -> bool {
    match field {
        BlockField::Timestamp => r.timestamp is Some,
        BlockField::Number => true,
        BlockField::Hash => r.hash is Some,
        BlockField::ParentHash => r.parent_hash is Some,
        BlockField::Size => r.size is Some,
        BlockField::StateRoot => r.state_root is Some,
        BlockField::TransactionsRoot => r.transactions_root is Some,
        BlockField::ReceiptsRoot => r.receipts_root is Some,
        BlockField::LogsBloom => r.logs_bloom is Some,
        BlockField::ExtraData => r.extra_data is Some,
        BlockField::MixHash => r.mix_hash is Some,
        BlockField::TotalDifficulty => r.total_difficulty is Some,
        BlockField::BaseFeePerGas => r.base_fee_per_gas is Some,
        BlockField::WithdrawalsRoot => r.withdrawals_root is Some,
        BlockField::BlobGasUsed => r.blob_gas_used is Some,
        BlockField::ExcessBlobGas => r.excess_blob_gas is Some,
        BlockField::ParentBeaconBlockRoot => r.parent_beacon_block_root is Some,
    }
}

/// Whether the provider's block carries a value for `field`.
pub open spec fn raw_has(raw: RawBlock, field: BlockField) -> bool {
    match field {
        BlockField::Timestamp => raw.timestamp is Some,
        BlockField::Number => raw.number is Some,
        BlockField::Hash => raw.hash is Some,
        BlockField::ParentHash => raw.parent_hash is Some,
        BlockField::Size => raw.size is Some,
        BlockField::StateRoot => raw.state_root is Some,
        BlockField::TransactionsRoot => raw.transactions_root is Some,
        BlockField::ReceiptsRoot => raw.receipts_root is Some,
        BlockField::LogsBloom => raw.logs_bloom is Some,
        BlockField::ExtraData => raw.extra_data is Some,
        BlockField::MixHash => raw.mix_hash is Some,
        BlockField::TotalDifficulty => raw.total_difficulty is Some,
        BlockField::BaseFeePerGas => raw.base_fee_per_gas is Some,
        BlockField::WithdrawalsRoot => raw.withdrawals_root is Some,
        BlockField::BlobGasUsed => raw.blob_gas_used is Some,
        BlockField::ExcessBlobGas => raw.excess_blob_gas is Some,
        BlockField::ParentBeaconBlockRoot => raw.parent_beacon_block_root is Some,
    }
}

/// Whether `field` occurs in `fields`.
pub fn requested(fields: &Vec<BlockField>, field: BlockField) -> (r: bool)
    ensures
        r == fields@.contains(field),
{
    let mut i: usize = 0;
    while i < fields.len()
        invariant
            i <= fields.len(),
            forall|j: int| 0 <= j < i ==> fields@[j] != field,
        decreases fields.len() - i,
    {
        if fields[i] == field {
            return true;
        }
        i = i + 1;
    }
    false
}

fn pick<T>(wanted: bool, value: Option<T>) -> (r: Option<T>)
    ensures
        r == (if wanted { value } else { None }),
{
    if wanted {
        value
    } else {
        None
    }
}

/// Copies the selected fields of `raw`, the block fetched as `number`, into a
/// fresh record; every field that is not selected stays absent.
pub fn project(raw: RawBlock, number: u64, fields: &Vec<BlockField>) -> (r: BlockRecord)
    ensures
        r == project_spec(raw, number, fields@),
{
    BlockRecord {
        number,
        timestamp: pick(requested(fields, BlockField::Timestamp), raw.timestamp),
        hash: pick(requested(fields, BlockField::Hash), raw.hash),
        parent_hash: pick(requested(fields, BlockField::ParentHash), raw.parent_hash),
        size: pick(requested(fields, BlockField::Size), raw.size),
        state_root: pick(requested(fields, BlockField::StateRoot), raw.state_root),
        transactions_root: pick(
            requested(fields, BlockField::TransactionsRoot),
            raw.transactions_root,
        ),
        receipts_root: pick(requested(fields, BlockField::ReceiptsRoot), raw.receipts_root),
        logs_bloom: pick(requested(fields, BlockField::LogsBloom), raw.logs_bloom),
        extra_data: pick(requested(fields, BlockField::ExtraData), raw.extra_data),
        mix_hash: pick(requested(fields, BlockField::MixHash), raw.mix_hash),
        total_difficulty: pick(
            requested(fields, BlockField::TotalDifficulty),
            raw.total_difficulty,
        ),
        base_fee_per_gas: pick(requested(fields, BlockField::BaseFeePerGas), raw.base_fee_per_gas),
        withdrawals_root: pick(
            requested(fields, BlockField::WithdrawalsRoot),
            raw.withdrawals_root,
        ),
        blob_gas_used: pick(requested(fields, BlockField::BlobGasUsed), raw.blob_gas_used),
        excess_blob_gas: pick(requested(fields, BlockField::ExcessBlobGas), raw.excess_blob_gas),
        parent_beacon_block_root: pick(
            requested(fields, BlockField::ParentBeaconBlockRoot),
            raw.parent_beacon_block_root,
        ),
    }
}

/// A projected record holds a value for a field exactly when the field was
/// selected and the source block carried it; its number is the fetched one.
pub proof fn lemma_projection_selects(raw: RawBlock, number: u64, fields: Seq<BlockField>)
    ensures
        project_spec(raw, number, fields).number == number,
        forall|f: BlockField|
            f != BlockField::Number ==> (#[trigger] record_has(project_spec(raw, number, fields), f)
                <==> (fields.contains(f) && raw_has(raw, f))),
{
}

} // verus!

use block_resolver::{
    check_entities, gather, project, requested, start_query, BlockField, BlockRange, BlockRecord,
    BlockRef, BlockResolverErrors, BlockTag, EntityId, RangeResolver, RawBlock,
};

fn raw_block(number: u64) -> RawBlock {
    let mut hash = [0u8; 32];
    hash[24..].copy_from_slice(&number.to_be_bytes());
    let mut parent = [0u8; 32];
    parent[24..].copy_from_slice(&number.wrapping_sub(1).to_be_bytes());
    RawBlock {
        number: Some(number),
        hash: Some(hash),
        parent_hash: Some(parent),
        timestamp: Some(1_700_000_000 + number),
        size: Some([1u8; 32]),
        state_root: Some([2u8; 32]),
        transactions_root: Some([3u8; 32]),
        receipts_root: Some([4u8; 32]),
        logs_bloom: Some(vec![0u8; 256]),
        extra_data: Some(vec![0xde, 0xad]),
        mix_hash: Some([5u8; 32]),
        total_difficulty: Some([6u8; 32]),
        base_fee_per_gas: Some(7),
        withdrawals_root: Some([8u8; 32]),
        blob_gas_used: Some(9),
        excess_blob_gas: Some(10),
        parent_beacon_block_root: Some([11u8; 32]),
    }
}

/// A chain whose head is `latest`; blocks listed in `missing` do not exist.
struct FakeChain {
    latest: u64,
    missing: Vec<u64>,
    lookups_by_number: usize,
}

impl FakeChain {
    fn new(latest: u64) -> FakeChain {
        FakeChain { latest, missing: vec![], lookups_by_number: 0 }
    }

    fn get_block_by_number(&mut self, r: BlockRef) -> Option<RawBlock> {
        match r {
            BlockRef::Number(n) => {
                self.lookups_by_number += 1;
                if n > self.latest || self.missing.contains(&n) {
                    None
                } else {
                    Some(raw_block(n))
                }
            }
            BlockRef::Tag(BlockTag::Earliest) => Some(raw_block(0)),
            BlockRef::Tag(BlockTag::Pending) => {
                let mut b = raw_block(self.latest + 1);
                b.number = None;
                Some(b)
            }
            BlockRef::Tag(_) => Some(raw_block(self.latest)),
        }
    }
}

fn drive(mut m: RangeResolver, chain: &mut FakeChain) -> Result<Vec<BlockRecord>, BlockResolverErrors> {
    while let Some(r) = m.request() {
        let reply = chain.get_block_by_number(r);
        m.on_block(reply)?;
    }
    assert!(m.is_done());
    Ok(m.into_records())
}

fn resolve(
    entities: Vec<EntityId>,
    fields: Vec<BlockField>,
    chain: &mut FakeChain,
) -> Result<Vec<BlockRecord>, BlockResolverErrors> {
    let resolvers = start_query(entities, fields)?;
    let results = resolvers.into_iter().map(|m| drive(m, chain)).collect();
    gather(results)
}

fn block(start: BlockRef, end: Option<BlockRef>) -> EntityId {
    EntityId::Block(BlockRange::new(start, end))
}

fn num(n: u64) -> BlockRef {
    BlockRef::Number(n)
}

fn numbers(records: &[BlockRecord]) -> Vec<u64> {
    records.iter().map(|r| r.number).collect()
}

#[test]
fn test_resolve_block_query_when_start_is_greater_than_end() {
    let mut chain = FakeChain::new(1_000);
    let entity_id = block(num(10), Some(num(5)));
    let result = resolve(vec![entity_id], vec![], &mut chain).unwrap_err();
    assert_eq!(result, BlockResolverErrors::InvalidRange(10, 5));
    assert_eq!(chain.lookups_by_number, 0);
}

#[test]
fn single_block_with_number_and_hash() {
    let mut chain = FakeChain::new(1_000);
    let records = resolve(
        vec![block(num(10), None)],
        vec![BlockField::Number, BlockField::Hash],
        &mut chain,
    )
    .unwrap();
    assert_eq!(records.len(), 1);
    let r = &records[0];
    assert_eq!(r.number, 10);
    assert_eq!(r.hash, raw_block(10).hash);
    assert!(r.hash.is_some());
    assert_eq!(r.timestamp, None);
    assert_eq!(r.parent_hash, None);
    assert_eq!(r.size, None);
    assert_eq!(r.state_root, None);
    assert_eq!(r.transactions_root, None);
    assert_eq!(r.receipts_root, None);
    assert_eq!(r.logs_bloom, None);
    assert_eq!(r.extra_data, None);
    assert_eq!(r.mix_hash, None);
    assert_eq!(r.total_difficulty, None);
    assert_eq!(r.base_fee_per_gas, None);
    assert_eq!(r.withdrawals_root, None);
    assert_eq!(r.blob_gas_used, None);
    assert_eq!(r.excess_blob_gas, None);
    assert_eq!(r.parent_beacon_block_root, None);
}

#[test]
fn latest_tag_resolves_to_head() {
    let mut chain = FakeChain::new(100);
    let m = RangeResolver::new(
        BlockRange::new(BlockRef::Tag(BlockTag::Latest), None),
        vec![BlockField::Number],
    )
    .unwrap();
    assert_eq!(m.request(), Some(BlockRef::Tag(BlockTag::Latest)));
    let records = drive(m, &mut chain).unwrap();
    assert_eq!(numbers(&records), vec![100]);
}

#[test]
fn two_entities_keep_input_order() {
    let mut chain = FakeChain::new(1_000);
    let records = resolve(
        vec![block(num(1), Some(num(3))), block(num(1), None)],
        vec![BlockField::Number],
        &mut chain,
    )
    .unwrap();
    assert_eq!(numbers(&records), vec![1, 2, 3, 1]);
}

#[test]
fn missing_block_fails_whole_range() {
    let mut chain = FakeChain::new(2_000_000);
    chain.missing.push(500_000);
    let result = resolve(vec![block(num(1), Some(num(1_000_000)))], vec![], &mut chain);
    assert_eq!(result, Err(BlockResolverErrors::BlockNotFound(500_000)));
    assert_eq!(chain.lookups_by_number, 500_000);
}

#[test]
fn concrete_range_counts_and_numbers() {
    let mut chain = FakeChain::new(1_000);
    let records = resolve(vec![block(num(5), Some(num(9)))], vec![], &mut chain).unwrap();
    assert_eq!(records.len(), 9 - 5 + 1);
    for (i, r) in records.iter().enumerate() {
        assert_eq!(r.number, 5 + i as u64);
    }
}

#[test]
fn equal_start_and_end_is_one_block() {
    let mut chain = FakeChain::new(1_000);
    let records = resolve(vec![block(num(42), Some(num(42)))], vec![], &mut chain).unwrap();
    assert_eq!(numbers(&records), vec![42]);
}

#[test]
fn range_up_to_largest_number() {
    let mut chain = FakeChain::new(u64::MAX);
    let records =
        resolve(vec![block(num(u64::MAX - 2), Some(num(u64::MAX)))], vec![], &mut chain).unwrap();
    assert_eq!(numbers(&records), vec![u64::MAX - 2, u64::MAX - 1, u64::MAX]);
}

#[test]
fn descending_range_after_tag_resolution() {
    let mut chain = FakeChain::new(3);
    let result = resolve(vec![block(BlockRef::Tag(BlockTag::Latest), Some(num(1)))], vec![], &mut chain);
    assert_eq!(result, Err(BlockResolverErrors::InvalidRange(3, 1)));
    assert_eq!(chain.lookups_by_number, 0);

    let result = resolve(vec![block(num(9), Some(BlockRef::Tag(BlockTag::Earliest)))], vec![], &mut chain);
    assert_eq!(result, Err(BlockResolverErrors::InvalidRange(9, 0)));
    assert_eq!(chain.lookups_by_number, 0);
}

#[test]
fn open_end_matches_end_at_start() {
    let fields = vec![BlockField::Timestamp, BlockField::ExtraData];
    let mut chain = FakeChain::new(1_000);
    let open = resolve(vec![block(num(7), None)], fields.clone(), &mut chain).unwrap();
    let closed = resolve(vec![block(num(7), Some(num(7)))], fields.clone(), &mut chain).unwrap();
    assert_eq!(open, closed);
    assert_eq!(open.len(), 1);

    let open = resolve(vec![block(BlockRef::Tag(BlockTag::Safe), None)], fields.clone(), &mut chain).unwrap();
    let closed = resolve(vec![block(num(1_000), Some(num(1_000)))], fields, &mut chain).unwrap();
    assert_eq!(open, closed);
}

#[test]
fn projection_selects_exactly_the_requested_fields() {
    let fields = vec![BlockField::BaseFeePerGas, BlockField::LogsBloom, BlockField::BaseFeePerGas];
    let mut raw = raw_block(12);
    raw.base_fee_per_gas = None;
    let r = project(raw.clone(), 12, &fields);
    assert_eq!(r.number, 12);
    assert_eq!(r.base_fee_per_gas, None);
    assert_eq!(r.logs_bloom, raw.logs_bloom);
    assert_eq!(r.hash, None);
    assert_eq!(r.timestamp, None);
    assert_eq!(r.extra_data, None);

    let all = vec![
        BlockField::Timestamp,
        BlockField::Number,
        BlockField::Hash,
        BlockField::ParentHash,
        BlockField::Size,
        BlockField::StateRoot,
        BlockField::TransactionsRoot,
        BlockField::ReceiptsRoot,
        BlockField::LogsBloom,
        BlockField::ExtraData,
        BlockField::MixHash,
        BlockField::TotalDifficulty,
        BlockField::BaseFeePerGas,
        BlockField::WithdrawalsRoot,
        BlockField::BlobGasUsed,
        BlockField::ExcessBlobGas,
        BlockField::ParentBeaconBlockRoot,
    ];
    let src = raw_block(12);
    let r = project(src.clone(), 12, &all);
    assert_eq!(r.timestamp, src.timestamp);
    assert_eq!(r.hash, src.hash);
    assert_eq!(r.parent_hash, src.parent_hash);
    assert_eq!(r.size, src.size);
    assert_eq!(r.state_root, src.state_root);
    assert_eq!(r.transactions_root, src.transactions_root);
    assert_eq!(r.receipts_root, src.receipts_root);
    assert_eq!(r.logs_bloom, src.logs_bloom);
    assert_eq!(r.extra_data, src.extra_data);
    assert_eq!(r.mix_hash, src.mix_hash);
    assert_eq!(r.total_difficulty, src.total_difficulty);
    assert_eq!(r.base_fee_per_gas, src.base_fee_per_gas);
    assert_eq!(r.withdrawals_root, src.withdrawals_root);
    assert_eq!(r.blob_gas_used, src.blob_gas_used);
    assert_eq!(r.excess_blob_gas, src.excess_blob_gas);
    assert_eq!(r.parent_beacon_block_root, src.parent_beacon_block_root);
}

#[test]
fn requested_finds_fields() {
    let fields = vec![BlockField::Hash, BlockField::Size];
    assert!(requested(&fields, BlockField::Size));
    assert!(!requested(&fields, BlockField::Number));
    assert!(!requested(&vec![], BlockField::Number));
}

#[test]
fn other_entity_kind_fails_whole_call() {
    let mut chain = FakeChain::new(1_000);
    let result = resolve(
        vec![block(num(1), None), EntityId::Transaction("0xabc".to_string()), EntityId::Account("vitalik.eth".to_string())],
        vec![BlockField::Number],
        &mut chain,
    );
    assert_eq!(result, Err(BlockResolverErrors::EntityKindMismatch("0xabc".to_string())));
    assert_eq!(chain.lookups_by_number, 0);

    let result = resolve(
        vec![block(num(10), Some(num(5))), EntityId::Logs("logs".to_string())],
        vec![],
        &mut chain,
    );
    assert_eq!(result, Err(BlockResolverErrors::EntityKindMismatch("logs".to_string())));
}

#[test]
fn check_entities_returns_ranges_in_order() {
    let ranges = check_entities(vec![block(num(1), None), block(num(2), Some(num(4)))]).unwrap();
    assert_eq!(ranges, vec![BlockRange::new(num(1), None), BlockRange::new(num(2), Some(num(4)))]);
    assert_eq!(check_entities(vec![]), Ok(vec![]));
}

#[test]
fn unresolvable_tags() {
    let mut chain = FakeChain::new(50);
    let result = resolve(vec![block(BlockRef::Tag(BlockTag::Pending), None)], vec![], &mut chain);
    assert_eq!(result, Err(BlockResolverErrors::UnresolvableTag(BlockTag::Pending)));

    let mut m = RangeResolver::new(BlockRange::new(num(1), Some(BlockRef::Tag(BlockTag::Finalized))), vec![]).unwrap();
    assert_eq!(m.request(), Some(BlockRef::Tag(BlockTag::Finalized)));
    assert_eq!(m.on_block(None), Err(BlockResolverErrors::UnresolvableTag(BlockTag::Finalized)));
    assert_eq!(m.request(), Some(BlockRef::Tag(BlockTag::Finalized)));
}

#[test]
fn block_beyond_head_not_found() {
    let mut chain = FakeChain::new(10);
    let result = resolve(vec![block(num(9), Some(num(12)))], vec![], &mut chain);
    assert_eq!(result, Err(BlockResolverErrors::BlockNotFound(11)));
}

#[test]
fn gather_takes_first_failure_in_input_order() {
    let ok = |ns: &[u64]| -> Result<Vec<BlockRecord>, BlockResolverErrors> {
        Ok(ns.iter().map(|n| project(raw_block(*n), *n, &vec![])).collect())
    };
    let joined = gather(vec![ok(&[4, 5]), ok(&[]), ok(&[2])]).unwrap();
    assert_eq!(numbers(&joined), vec![4, 5, 2]);
    let failed = gather(vec![
        ok(&[1]),
        Err(BlockResolverErrors::BlockNotFound(8)),
        Err(BlockResolverErrors::UnresolvableTag(BlockTag::Safe)),
    ]);
    assert_eq!(failed, Err(BlockResolverErrors::BlockNotFound(8)));
    assert_eq!(gather(vec![]), Ok(vec![]));
}

#[test]
fn resolver_stages_progress() {
    let mut m = RangeResolver::new(BlockRange::new(num(3), Some(num(4))), vec![]).unwrap();
    assert_eq!(m.request(), Some(num(3)));
    m.on_block(Some(raw_block(3))).unwrap();
    assert_eq!(m.request(), Some(num(4)));
    assert!(!m.is_done());
    m.on_block(Some(raw_block(4))).unwrap();
    assert_eq!(m.request(), None);
    assert!(m.is_done());
}

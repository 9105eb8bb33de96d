use vstd::prelude::*;

use crate::error::BlockResolverErrors;
use crate::resolver::{initial_stage, RangeResolver};
use crate::types::{BlockField, BlockRange, BlockRecord, EntityId};

verus! {

/// The text by which an entity of another kind is reported.
pub open spec fn describe(e: EntityId) -> String {
    match e {
        EntityId::Transaction(s) => s,
        EntityId::Account(s) => s,
        EntityId::Logs(s) => s,
        EntityId::Block(_) => arbitrary(),
    }
}

/// Every entity of the list is a block range.
pub open spec fn all_blocks(entities: Seq<EntityId>) -> bool {
    forall|i: int| 0 <= i < entities.len() ==> #[trigger] entities[i] is Block
}

/// `k` is the first entity of the list that is not a block range.
pub open spec fn first_non_block(entities: Seq<EntityId>, k: int) -> bool {
    &&& 0 <= k < entities.len()
    &&& !(entities[k] is Block)
    &&& forall|j: int| 0 <= j < k ==> #[trigger] entities[j] is Block
}

/// The records of every entity's result, concatenated in input order.
pub open spec fn all_records(results: Seq<Result<Vec<BlockRecord>, BlockResolverErrors>>) -> Seq<
    BlockRecord,
>
    decreases results.len(),
{
    if results.len() == 0 {
        Seq::empty()
    } else {
        let head = match results[0] {
            Ok(v) => v@,
            Err(_) => Seq::empty(),
        };
        head + all_records(results.subrange(1, results.len() as int))
    }
}

/// Checks that every entity is a block range, before any of them is resolved.
/// The first entity of another kind fails the whole list.
pub fn check_entities(entities: Vec<EntityId>) -> (r: Result<Vec<BlockRange>, BlockResolverErrors>)
    ensures
        r is Ok <==> all_blocks(entities@),
        r matches Ok(ranges) ==> ranges@.len() == entities@.len() && forall|i: int|
            0 <= i < entities@.len() ==> #[trigger] entities@[i] == EntityId::Block(ranges@[i]),
        r matches Err(e) ==> exists|k: int|
            first_non_block(entities@, k) && e == BlockResolverErrors::EntityKindMismatch(
                describe(#[trigger] entities@[k]),
            ),
{
    let ghost given = entities@;
    let mut pending = entities;
    let mut ranges: Vec<BlockRange> = Vec::new();
    let mut i: usize = 0;
    while i < pending.len()
        invariant
            pending@ == given,
            given == entities@,
            i <= pending.len(),
            ranges@.len() == i,
            forall|j: int| 0 <= j < i ==> #[trigger] entities@[j] == EntityId::Block(ranges@[j]),
        decreases pending.len() - i,
    {
        match &pending[i] {
            EntityId::Block(range) => {
                ranges.push(*range);
            },
            _ => {
                let ghost before = pending@;
                assert(first_non_block(before, i as int));
                let other = pending.remove(i);
                assert(other == given[i as int]);
                let text = match other {
                    EntityId::Transaction(s) => s,
                    EntityId::Account(s) => s,
                    EntityId::Logs(s) => s,
                    EntityId::Block(_) => String::new(),
                };
                assert(text == describe(given[i as int]));
                assert(!all_blocks(given));
                return Err(BlockResolverErrors::EntityKindMismatch(text));
            },
        }
        i = i + 1;
    }
    proof {
        assert forall|j: int| 0 <= j < given.len() implies #[trigger] given[j] is Block by {
            assert(given[j] == EntityId::Block(ranges@[j]));
        }
    }
    Ok(ranges)
}

fn copy_fields(fields: &Vec<BlockField>) -> (r: Vec<BlockField>)
    ensures
        r@ == fields@,
{
    let mut out: Vec<BlockField> = Vec::new();
    let mut i: usize = 0;
    while i < fields.len()
        invariant
            i <= fields.len(),
            out@ == fields@.subrange(0, i as int),
        decreases fields.len() - i,
    {
        out.push(fields[i]);
        i = i + 1;
        assert(out@ =~= fields@.subrange(0, i as int));
    }
    assert(out@ =~= fields@);
    out
}

/// Starts one resolver per entity, in input order, after checking that all
/// of them are block ranges. Ranges of two numbers are checked for order
/// here; the first one found descending fails the whole query.
pub fn start_query(entities: Vec<EntityId>, fields: Vec<BlockField>) -> (r: Result<
    Vec<RangeResolver>,
    BlockResolverErrors,
>)
    ensures
        r is Ok <==> (all_blocks(entities@) && forall|i: int|
            0 <= i < entities@.len() ==> (#[trigger] initial_stage(entities@[i]->Block_0)) is Ok),
        !all_blocks(entities@) ==> exists|k: int|
            first_non_block(entities@, k) && r == Err::<Vec<RangeResolver>, _>(
                BlockResolverErrors::EntityKindMismatch(describe(#[trigger] entities@[k])),
            ),
        all_blocks(entities@) ==> (r matches Err(e) ==> exists|k: int|
            0 <= k < entities@.len() && initial_stage(entities@[k]->Block_0) == Err::<
                crate::resolver::Stage,
                _,
            >(e) && forall|j: int|
                0 <= j < k ==> (#[trigger] initial_stage(entities@[j]->Block_0)) is Ok),
        r matches Ok(ms) ==> ms@.len() == entities@.len() && forall|i: int|
            0 <= i < ms@.len() ==> {
                &&& initial_stage(entities@[i]->Block_0) == Ok::<_, BlockResolverErrors>(
                    (#[trigger] ms@[i])@.stage,
                )
                &&& ms@[i]@.fields == fields@
                &&& ms@[i]@.records.len() == 0
                &&& ms@[i]@.consistent()
            },
{
    let ghost ents = entities@;
    let ranges = match check_entities(entities) {
        Ok(ranges) => ranges,
        Err(e) => {
            return Err(e);
        },
    };
    let mut resolvers: Vec<RangeResolver> = Vec::new();
    let mut i: usize = 0;
    while i < ranges.len()
        invariant
            i <= ranges.len(),
            ents == entities@,
            ranges@.len() == ents.len(),
            all_blocks(ents),
            forall|j: int| 0 <= j < ents.len() ==> #[trigger] ents[j] == EntityId::Block(ranges@[j]),
            resolvers@.len() == i,
            forall|j: int|
                0 <= j < i ==> {
                    &&& initial_stage(ranges@[j]) == Ok::<_, BlockResolverErrors>(
                        (#[trigger] resolvers@[j])@.stage,
                    )
                    &&& resolvers@[j]@.fields == fields@
                    &&& resolvers@[j]@.records.len() == 0
                    &&& resolvers@[j]@.consistent()
                },
        decreases ranges.len() - i,
    {
        match RangeResolver::new(ranges[i], copy_fields(&fields)) {
            Ok(m) => {
                resolvers.push(m);
            },
            Err(e) => {
                proof {
                    assert(ents[i as int]->Block_0 == ranges@[i as int]);
                    assert(!(initial_stage(ents[i as int]->Block_0) is Ok));
                    assert forall|j: int| 0 <= j < i implies (#[trigger] initial_stage(
                        ents[j]->Block_0,
                    )) is Ok by {
                        assert(ents[j] == EntityId::Block(ranges@[j]));
                        assert(initial_stage(ranges@[j]) == Ok::<_, BlockResolverErrors>(
                            resolvers@[j]@.stage,
                        ));
                    }
                }
                return Err(e);
            },
        }
        i = i + 1;
    }
    proof {
        assert forall|j: int| 0 <= j < ents.len() implies (#[trigger] initial_stage(
            ents[j]->Block_0,
        )) is Ok && initial_stage(ents[j]->Block_0) == Ok::<_, BlockResolverErrors>(
            resolvers@[j]@.stage,
        ) by {
            assert(ents[j] == EntityId::Block(ranges@[j]));
            assert(initial_stage(ranges@[j]) == Ok::<_, BlockResolverErrors>(resolvers@[j]@.stage));
        }
    }
    Ok(resolvers)
}

/// Joins the per-entity results: the first failure in input order fails the
/// whole query; otherwise the records are concatenated in input order.
pub fn gather(results: Vec<Result<Vec<BlockRecord>, BlockResolverErrors>>) -> (r: Result<
    Vec<BlockRecord>,
    BlockResolverErrors,
>)
    ensures
        r is Ok <==> forall|i: int| 0 <= i < results@.len() ==> #[trigger] results@[i] is Ok,
        r matches Ok(v) ==> v@ == all_records(results@),
        r matches Err(e) ==> exists|k: int|
            0 <= k < results@.len() && #[trigger] results@[k] == Err::<Vec<BlockRecord>, _>(e)
                && forall|j: int| 0 <= j < k ==> #[trigger] results@[j] is Ok,
{
    let ghost all = results@;
    let mut pending = results;
    let mut i: usize = 0;
    while i < pending.len()
        invariant
            i <= pending.len(),
            pending@ == all,
            all == results@,
            forall|j: int| 0 <= j < i ==> #[trigger] all[j] is Ok,
        decreases pending.len() - i,
    {
        if pending[i].is_err() {
            assert(all[i as int] is Err);
            let failed = pending.remove(i);
            assert(failed == all[i as int]);
            return match failed {
                Err(e) => {
                    assert(all[i as int] == Err::<Vec<BlockRecord>, BlockResolverErrors>(e));
                    Err(e)
                },
                Ok(v) => Ok(v),
            };
        }
        i = i + 1;
    }
    let mut out: Vec<BlockRecord> = Vec::new();
    while pending.len() > 0
        invariant
            all == results@,
            forall|j: int| 0 <= j < pending@.len() ==> #[trigger] pending@[j] is Ok,
            out@ + all_records(pending@) == all_records(all),
        decreases pending.len(),
    {
        let ghost rest = pending@;
        let first = pending.remove(0);
        assert(pending@ =~= rest.subrange(1, rest.len() as int));
        match first {
            Ok(mut v) => {
                let ghost before = out@;
                out.append(&mut v);
                assert(before + (rest[0]->Ok_0@ + all_records(pending@)) =~= out@ + all_records(
                    pending@,
                ));
            },
            Err(_) => {
                assert(rest[0] is Ok);
            },
        }
    }
    assert(out@ =~= out@ + all_records(pending@));
    Ok(out)
}

} // verus!

use vstd::prelude::*;

use crate::error::BlockResolverErrors;
use crate::projection::{lemma_projection_selects, project, project_spec, raw_has, record_has};
use crate::types::{BlockField, BlockRange, BlockRecord, BlockRef, BlockTag, RawBlock};

verus! {

/// Where the resolution of one block range stands.
#[derive(Debug, Clone, Copy, PartialEq, Eq, Structural)]
pub enum Stage {
    /// Waiting for the provider to resolve the start tag.
    ResolveStart { tag: BlockTag, end: Option<BlockRef> },
    /// Start is known; waiting for the provider to resolve the end tag.
    ResolveEnd { start: u64, tag: BlockTag },
    /// Range `[start, end]` is validated; waiting for block `next`.
    Fetch { start: u64, end: u64, next: u64 },
    /// Every block of `[start, end]` has been fetched.
    Done { start: u64, end: u64 },
}

/// The stage that follows a validated order check of `[start, end]`.
pub open spec fn checked_range(start: u64, end: u64) -> Result<Stage, BlockResolverErrors> {
    if start > end {
        Err(BlockResolverErrors::InvalidRange(start, end))
    } else {
        Ok(Stage::Fetch { start, end, next: start })
    }
}

/// The stage once the start number is known; no end means the single block `start`.
pub open spec fn after_start(start: u64, end: Option<BlockRef>) -> Result<Stage, BlockResolverErrors> {
    match end {
        None => checked_range(start, start),
        Some(BlockRef::Number(e)) => checked_range(start, e),
        Some(BlockRef::Tag(tag)) => Ok(Stage::ResolveEnd { start, tag }),
    }
}

/// The first stage of a range: concrete references need no provider call.
pub open spec fn initial_stage(range: BlockRange) -> Result<Stage, BlockResolverErrors> {
    match range.start {
        BlockRef::Number(s) => after_start(s, range.end),
        BlockRef::Tag(tag) => Ok(Stage::ResolveStart { tag, end: range.end }),
    }
}

/// The block number that a tag lookup produced, if any.
pub open spec fn reply_number(reply: Option<RawBlock>) -> Option<u64> {
    match reply {
        Some(b) => b.number,
        None => None,
    }
}

/// The provider lookup that a stage waits for: `get_block_by_number(ref, false)`.
pub open spec fn pending_lookup(stage: Stage) -> Option<BlockRef> {
    match stage {
        Stage::ResolveStart { tag, .. } => Some(BlockRef::Tag(tag)),
        Stage::ResolveEnd { tag, .. } => Some(BlockRef::Tag(tag)),
        Stage::Fetch { next, .. } => Some(BlockRef::Number(next)),
        Stage::Done { .. } => None,
    }
}

/// The stage after the provider answered the pending lookup with `reply`.
pub open spec fn next_stage(stage: Stage, reply: Option<RawBlock>) -> Result<Stage, BlockResolverErrors> {
    match stage {
        Stage::ResolveStart { tag, end } => match reply_number(reply) {
            Some(n) => after_start(n, end),
            None => Err(BlockResolverErrors::UnresolvableTag(tag)),
        },
        Stage::ResolveEnd { start, tag } => match reply_number(reply) {
            Some(n) => checked_range(start, n),
            None => Err(BlockResolverErrors::UnresolvableTag(tag)),
        },
        Stage::Fetch { start, end, next } => match reply {
            Some(_) => Ok(
                if next == end {
                    Stage::Done { start, end }
                } else {
                    Stage::Fetch { start, end, next: (next + 1) as u64 }
                },
            ),
            None => Err(BlockResolverErrors::BlockNotFound(next)),
        },
        Stage::Done { .. } => Ok(stage),
    }
}

/// What a resolver holds, as mathematical values.
pub struct ResolverView {
    pub stage: Stage,
    pub fields: Seq<BlockField>,
    pub records: Seq<BlockRecord>,
    /// The provider's blocks behind `records`, one each.
    pub sources: Seq<RawBlock>,
}

impl ResolverView {
    /// The first `count` blocks from `start` on were fetched in ascending order
    /// and each projected onto the selected fields.
    pub open spec fn fetched_from(self, start: u64, count: int) -> bool {
        &&& self.records.len() == count
        &&& self.sources.len() == count
        &&& forall|i: int|
            0 <= i < count ==> #[trigger] self.records[i] == project_spec(
                self.sources[i],
                (start + i) as u64,
                self.fields,
            )
    }

    pub open spec fn consistent(self) -> bool {
        match self.stage {
            Stage::ResolveStart { .. } => self.fetched_from(0, 0),
            Stage::ResolveEnd { .. } => self.fetched_from(0, 0),
            Stage::Fetch { start, end, next } => start <= next <= end && self.fetched_from(
                start,
                next - start,
            ),
            Stage::Done { start, end } => start <= end && self.fetched_from(start, end - start + 1),
        }
    }
}

/// Resolves one block range, driven by the provider's answers: ask `request`
/// which lookup to make, hand its answer to `on_block`, until it is done.
pub struct RangeResolver {
    stage: Stage,
    fields: Vec<BlockField>,
    records: Vec<BlockRecord>,
    sources: Ghost<Seq<RawBlock>>,
}

impl View for RangeResolver {
    type V = ResolverView;

    closed spec fn view(&self) -> ResolverView {
        ResolverView {
            stage: self.stage,
            fields: self.fields@,
            records: self.records@,
            sources: self.sources@,
        }
    }
}

fn check_range(start: u64, end: u64) -> (r: Result<Stage, BlockResolverErrors>)
    ensures
        r == checked_range(start, end),
{
    if start > end {
        Err(BlockResolverErrors::InvalidRange(start, end))
    } else {
        Ok(Stage::Fetch { start, end, next: start })
    }
}

fn stage_after_start(start: u64, end: Option<BlockRef>) -> (r: Result<Stage, BlockResolverErrors>)
    ensures
        r == after_start(start, end),
{
    match end {
        None => check_range(start, start),
        Some(BlockRef::Number(e)) => check_range(start, e),
        Some(BlockRef::Tag(tag)) => Ok(Stage::ResolveEnd { start, tag }),
    }
}

fn number_of(reply: &Option<RawBlock>) -> (r: Option<u64>)
    ensures
        r == reply_number(*reply),
{
    match reply {
        Some(b) => b.number,
        None => None,
    }
}

impl RangeResolver {
    /// Starts resolving `range`. References that are already numbers are taken
    /// as they are, so a range of two numbers is checked for order right here.
    pub fn new(range: BlockRange, fields: Vec<BlockField>) -> (r: Result<
        RangeResolver,
        BlockResolverErrors,
    >)
        ensures
            r is Ok <==> initial_stage(range) is Ok,
            r matches Err(e) ==> initial_stage(range) == Err::<Stage, _>(e),
            r matches Ok(m) ==> {
                &&& initial_stage(range) == Ok::<_, BlockResolverErrors>(m@.stage)
                &&& m@.fields == fields@
                &&& m@.records.len() == 0
                &&& m@.sources.len() == 0
                &&& m@.consistent()
            },
    {
        let stage = match range.start {
            BlockRef::Number(s) => stage_after_start(s, range.end),
            BlockRef::Tag(tag) => Ok(Stage::ResolveStart { tag, end: range.end }),
        };
        match stage {
            Ok(stage) => Ok(
                RangeResolver { stage, fields, records: Vec::new(), sources: Ghost(Seq::empty()) },
            ),
            Err(e) => Err(e),
        }
    }

    /// The lookup to make next, or `None` once the range is complete.
    pub fn request(&self) -> (r: Option<BlockRef>)
        ensures
            r == pending_lookup(self@.stage),
    {
        match self.stage {
            Stage::ResolveStart { tag, .. } => Some(BlockRef::Tag(tag)),
            Stage::ResolveEnd { tag, .. } => Some(BlockRef::Tag(tag)),
            Stage::Fetch { next, .. } => Some(BlockRef::Number(next)),
            Stage::Done { .. } => None,
        }
    }

    pub fn is_done(&self) -> (r: bool)
        ensures
            r == self@.stage is Done,
    {
        match self.stage {
            Stage::Done { .. } => true,
            _ => false,
        }
    }

    /// Takes the provider's answer to the pending lookup. A tag answer yields
    /// the tag's number; a block answer is projected and appended. A missing
    /// answer, or a range found descending, is an error and changes nothing.
    pub fn on_block(&mut self, reply: Option<RawBlock>) -> (r: Result<(), BlockResolverErrors>)
        requires
            old(self)@.consistent(),
            !(old(self)@.stage is Done),
        ensures
            final(self)@.consistent(),
            final(self)@.fields == old(self)@.fields,
            r is Ok <==> next_stage(old(self)@.stage, reply) is Ok,
            r matches Err(e) ==> {
                &&& next_stage(old(self)@.stage, reply) == Err::<Stage, _>(e)
                &&& final(self)@ == old(self)@
            },
            r is Ok ==> next_stage(old(self)@.stage, reply) == Ok::<_, BlockResolverErrors>(
                final(self)@.stage,
            ),
            r is Ok ==> (old(self)@.stage matches Stage::Fetch { next, .. } ==> {
                &&& final(self)@.sources == old(self)@.sources.push(reply->0)
                &&& final(self)@.records == old(self)@.records.push(
                    project_spec(reply->0, next, old(self)@.fields),
                )
            }),
            r is Ok ==> (!(old(self)@.stage is Fetch) ==> {
                &&& final(self)@.sources == old(self)@.sources
                &&& final(self)@.records == old(self)@.records
            }),
    {
        match self.stage {
            Stage::ResolveStart { tag, end } => match number_of(&reply) {
                Some(n) => match stage_after_start(n, end) {
                    Ok(stage) => {
                        self.stage = stage;
                        Ok(())
                    },
                    Err(e) => Err(e),
                },
                None => Err(BlockResolverErrors::UnresolvableTag(tag)),
            },
            Stage::ResolveEnd { start, tag } => match number_of(&reply) {
                Some(n) => match check_range(start, n) {
                    Ok(stage) => {
                        self.stage = stage;
                        Ok(())
                    },
                    Err(e) => Err(e),
                },
                None => Err(BlockResolverErrors::UnresolvableTag(tag)),
            },
            Stage::Fetch { start, end, next } => match reply {
                Some(raw) => {
                    let ghost source = raw;
                    let record = project(raw, next, &self.fields);
                    self.records.push(record);
                    self.sources = Ghost(self.sources@.push(source));
                    self.stage = if next == end {
                        Stage::Done { start, end }
                    } else {
                        Stage::Fetch { start, end, next: next + 1 }
                    };
                    proof {
                        let v = self@;
                        assert forall|i: int| 0 <= i < v.records.len() implies #[trigger] v.records[i]
                            == project_spec(v.sources[i], (start + i) as u64, v.fields) by {
                            if i < v.records.len() - 1 {
                                assert(old(self)@.records[i] == v.records[i]);
                            }
                        }
                    }
                    Ok(())
                },
                None => Err(BlockResolverErrors::BlockNotFound(next)),
            },
            Stage::Done { .. } => Ok(()),
        }
    }

    /// The records fetched so far, in ascending block order.
    pub fn into_records(self) -> (r: Vec<BlockRecord>)
        ensures
            r@ == self@.records,
    {
        self.records
    }
}

/// Once a range is complete, it holds exactly one record per block of
/// `[start, end]`, and the `i`-th record is block `start + i`.
pub proof fn lemma_completed_range(v: ResolverView)
    requires
        v.consistent(),
    ensures
        v.stage matches Stage::Done { start, end } ==> {
            &&& v.records.len() == end - start + 1
            &&& forall|i: int|
                0 <= i < v.records.len() ==> (#[trigger] v.records[i]).number == start + i
        },
{
    if let Stage::Done { start, end } = v.stage {
        assert forall|i: int| 0 <= i < v.records.len() implies (#[trigger] v.records[i]).number
            == start + i by {
            assert(v.records[i] == project_spec(v.sources[i], (start + i) as u64, v.fields));
        }
    }
}

/// A range of two numbers in ascending order goes straight to fetching its
/// first block, and each block found moves on to the next one, up to `end`.
pub proof fn lemma_concrete_range(start: u64, end: u64, raw: RawBlock, next: u64)
    requires
        start <= end,
    ensures
        initial_stage(BlockRange { start: BlockRef::Number(start), end: Some(BlockRef::Number(end)) })
            == Ok::<_, BlockResolverErrors>(Stage::Fetch { start, end, next: start }),
        start <= next < end ==> next_stage(Stage::Fetch { start, end, next }, Some(raw)) == Ok::<
            _,
            BlockResolverErrors,
        >(Stage::Fetch { start, end, next: (next + 1) as u64 }),
        next_stage(Stage::Fetch { start, end, next: end }, Some(raw)) == Ok::<
            _,
            BlockResolverErrors,
        >(Stage::Done { start, end }),
{
}

/// Whenever the resolved start lies above the resolved end, resolution fails
/// with `InvalidRange(start, end)`: for two numbers, for a start tag, and for
/// an end tag.
pub proof fn lemma_descending_range_rejected(start: u64, end: u64, tag: BlockTag, reply: Option<RawBlock>)
    requires
        start > end,
    ensures
        initial_stage(BlockRange { start: BlockRef::Number(start), end: Some(BlockRef::Number(end)) })
            == Err::<Stage, _>(BlockResolverErrors::InvalidRange(start, end)),
        reply_number(reply) == Some(start) ==> next_stage(
            Stage::ResolveStart { tag, end: Some(BlockRef::Number(end)) },
            reply,
        ) == Err::<Stage, _>(BlockResolverErrors::InvalidRange(start, end)),
        reply_number(reply) == Some(end) ==> next_stage(Stage::ResolveEnd { start, tag }, reply)
            == Err::<Stage, _>(BlockResolverErrors::InvalidRange(start, end)),
{
}

/// An order failure only ever comes before the first block is fetched, and
/// only for a start above the end.
pub proof fn lemma_order_failure_fetches_nothing(v: ResolverView, reply: Option<RawBlock>)
    requires
        v.consistent(),
    ensures
        next_stage(v.stage, reply) matches Err(BlockResolverErrors::InvalidRange(s, e)) ==> {
            &&& s > e
            &&& v.sources.len() == 0
            &&& v.records.len() == 0
        },
{
}

/// A range without an end behaves as the range that ends at its own start:
/// one block, whether the start is a number or a tag the provider resolves.
pub proof fn lemma_open_end_is_single_block(n: u64, tag: BlockTag, reply: Option<RawBlock>)
    ensures
        initial_stage(BlockRange { start: BlockRef::Number(n), end: None }) == initial_stage(
            BlockRange { start: BlockRef::Number(n), end: Some(BlockRef::Number(n)) },
        ),
        initial_stage(BlockRange { start: BlockRef::Number(n), end: None }) == Ok::<
            _,
            BlockResolverErrors,
        >(Stage::Fetch { start: n, end: n, next: n }),
        reply_number(reply) == Some(n) ==> {
            &&& next_stage(Stage::ResolveStart { tag, end: None }, reply) == next_stage(
                Stage::ResolveStart { tag, end: Some(BlockRef::Number(n)) },
                reply,
            )
            &&& next_stage(Stage::ResolveStart { tag, end: None }, reply) == Ok::<
                _,
                BlockResolverErrors,
            >(Stage::Fetch { start: n, end: n, next: n })
        },
{
}

/// Every record of a range holds a value for a field exactly when the field
/// was selected and the provider's block carried it, whatever the stage.
pub proof fn lemma_records_hold_selected_fields(v: ResolverView)
    requires
        v.consistent(),
    ensures
        forall|i: int, f: BlockField|
            0 <= i < v.records.len() && f != BlockField::Number ==> (#[trigger] record_has(
                v.records[i],
                f,
            ) <==> (v.fields.contains(f) && raw_has(v.sources[i], f))),
{
    let start: u64 = match v.stage {
        Stage::Fetch { start, .. } => start,
        Stage::Done { start, .. } => start,
        _ => 0,
    };
    assert forall|i: int, f: BlockField|
        0 <= i < v.records.len() && f != BlockField::Number implies (#[trigger] record_has(
        v.records[i],
        f,
    ) <==> (v.fields.contains(f) && raw_has(v.sources[i], f))) by {
        assert(v.records[i] == project_spec(v.sources[i], (start + i) as u64, v.fields));
        lemma_projection_selects(v.sources[i], (start + i) as u64, v.fields);
    }
}

} // verus!

use vstd::prelude::*;

use crate::types::BlockTag;

verus! {

/// Why a block query could not be resolved. Every error ends the whole call.
#[derive(Debug, Clone, PartialEq, Eq)]
pub enum BlockResolverErrors {
    /// The provider gave no block number for the tag.
    UnresolvableTag(BlockTag),
    /// The resolved start lies above the resolved end: `(start, end)`.
    InvalidRange(u64, u64),
    /// An entity of another kind reached the block resolver; holds its text.
    EntityKindMismatch(String),
    /// The provider has no block at this number.
    BlockNotFound(u64),
    /// The provider call itself failed; holds the provider's message.
    ProviderFailure(String),
}

} // verus!

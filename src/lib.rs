//! Resolution of block queries: symbolic block ranges are turned into
//! concrete, ordered block records with a caller-selected set of fields.
//!
//! The provider round trips happen outside: a [`RangeResolver`] says which
//! lookup it waits for and takes the provider's answer, so every decision
//! (tag resolution, order check, projection, aggregation) is verified here.
use vstd::prelude::*;

pub mod error;
pub mod projection;
pub mod query;
pub mod resolver;
pub mod types;

pub use error::BlockResolverErrors;
pub use projection::{project, requested};
pub use query::{check_entities, gather, start_query};
pub use resolver::{RangeResolver, Stage};
pub use types::{BlockField, BlockRange, BlockRecord, BlockRef, BlockTag, EntityId, RawBlock};

verus! {

} // verus!

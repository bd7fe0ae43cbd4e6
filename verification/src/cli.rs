//! The command-line surface: one required argument, the market slug.

use vstd::prelude::*;

verus! {

/// The parsed command line. The surrounding binary fills this in from the
/// process arguments; the library only carries the value.
#[derive(Debug, Clone)]
pub struct CLI {
    /// Slug of the market group to analyze.
    pub market_slug: String,
}

} // verus!

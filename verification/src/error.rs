//! The ways in which a call on the attention layer can fail.

use vstd::prelude::*;

verus! {

/// Why the layer refused a configuration or an input. No partial result
/// accompanies an error.
#[derive(Debug, Clone, Copy, PartialEq, Eq, Structural)]
pub enum AttentionError {
    /// A width does not divide into heads, or two inputs disagree in size.
    Shape,
    /// A relative-position table was supplied with a rank other than 2, 3 or 4.
    InvalidRank { rank: usize },
    /// A position term is enabled on a layer that lacks what the term needs.
    Configuration,
}

} // verus!

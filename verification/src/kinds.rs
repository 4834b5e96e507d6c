//! The kinds of position term a layer can be configured with.

use vstd::prelude::*;

verus! {

/// One kind of relative-position term in the attention score.
#[derive(Debug, Clone, Copy, PartialEq, Eq, Structural)]
pub enum PositionAttentionType {
    /// Content of the query against the position of the key.
    C2p,
    /// Position of the query against the content of the key.
    P2c,
    /// Position against position. It asks for both position projections
    /// and adds no term of its own to the score.
    P2p,
}

/// The set of position terms enabled on a layer.
#[derive(Debug, Clone, Copy, PartialEq, Eq, Structural)]
pub struct PositionAttentionTypes {
    pub c2p: bool,
    pub p2c: bool,
    pub p2p: bool,
}

impl PositionAttentionTypes {
    /// Whether `kind` is in the set.
    pub open spec fn spec_has_type(&self, kind: PositionAttentionType) -> bool {
        match kind {
            PositionAttentionType::C2p => self.c2p,
            PositionAttentionType::P2c => self.p2c,
            PositionAttentionType::P2p => self.p2p,
        }
    }

    /// How many kinds are in the set.
    pub open spec fn spec_len(&self) -> int {
        (if self.c2p { 1int } else { 0 }) + (if self.p2c { 1int } else { 0 }) + (if self.p2p { 1int } else { 0 })
    }

    /// The set with no kind in it.
    pub fn empty() -> (types: Self)
        ensures
            types == (PositionAttentionTypes { c2p: false, p2c: false, p2p: false }),
            types.spec_len() == 0,
    {
        PositionAttentionTypes { c2p: false, p2c: false, p2p: false }
    }

    /// The set of the kinds that occur in `kinds`; repeats count once.
    pub fn from_kinds(kinds: &Vec<PositionAttentionType>) -> (types: Self)
        ensures
            forall|kind: PositionAttentionType| types.spec_has_type(kind) <==> kinds@.contains(kind),
    {
        let mut types = PositionAttentionTypes { c2p: false, p2c: false, p2p: false };
        let mut i: usize = 0;
        while i < kinds.len()
            invariant
                i <= kinds.len(),
                types.c2p <==> kinds@.subrange(0, i as int).contains(PositionAttentionType::C2p),
                types.p2c <==> kinds@.subrange(0, i as int).contains(PositionAttentionType::P2c),
                types.p2p <==> kinds@.subrange(0, i as int).contains(PositionAttentionType::P2p),
            decreases kinds.len() - i,
        {
            let kind = kinds[i];
            proof {
                lemma_contains_after_push(kinds@, i as int, PositionAttentionType::C2p);
                lemma_contains_after_push(kinds@, i as int, PositionAttentionType::P2c);
                lemma_contains_after_push(kinds@, i as int, PositionAttentionType::P2p);
            }
            match kind {
                PositionAttentionType::C2p => {
                    types.c2p = true;
                },
                PositionAttentionType::P2c => {
                    types.p2c = true;
                },
                PositionAttentionType::P2p => {
                    types.p2p = true;
                },
            }
            i = i + 1;
        }
        proof {
            assert(kinds@.subrange(0, i as int) =~= kinds@);
            assert forall|kind: PositionAttentionType| types.spec_has_type(kind) <==> kinds@.contains(kind) by {
                match kind {
                    PositionAttentionType::C2p => {},
                    PositionAttentionType::P2c => {},
                    PositionAttentionType::P2p => {},
                }
            }
        }
        types
    }

    /// Whether `kind` is enabled.
    pub fn has_type(&self, kind: PositionAttentionType) -> (present: bool)
        ensures
            present == self.spec_has_type(kind),
    {
        match kind {
            PositionAttentionType::C2p => self.c2p,
            PositionAttentionType::P2c => self.p2c,
            PositionAttentionType::P2p => self.p2p,
        }
    }

    /// The number of enabled kinds, between 0 and 3.
    pub fn len(&self) -> (count: usize)
        ensures
            count == self.spec_len(),
            count <= 3,
    {
        let mut count: usize = 0;
        if self.c2p {
            count = count + 1;
        }
        if self.p2c {
            count = count + 1;
        }
        if self.p2p {
            count = count + 1;
        }
        count
    }

    /// Whether no kind is enabled.
    pub fn is_empty(&self) -> (none: bool)
        ensures
            none == (self.spec_len() == 0),
            none == (!self.c2p && !self.p2c && !self.p2p),
    {
        !self.c2p && !self.p2c && !self.p2p
    }
}

/// A prefix one element longer holds `kind` exactly when the shorter one
/// does or the new element is `kind`.
proof fn lemma_contains_after_push(kinds: Seq<PositionAttentionType>, i: int, kind: PositionAttentionType)
    requires
        0 <= i < kinds.len(),
    ensures
        kinds.subrange(0, i + 1).contains(kind) <==> (kinds.subrange(0, i).contains(kind) || kinds[i] == kind),
{
    let before = kinds.subrange(0, i);
    let after = kinds.subrange(0, i + 1);
    if before.contains(kind) {
        let j = choose|j: int| 0 <= j < before.len() && before[j] == kind;
        assert(after[j] == kind);
    }
    if kinds[i] == kind {
        assert(after[i] == kind);
    }
    if after.contains(kind) {
        let j = choose|j: int| 0 <= j < after.len() && after[j] == kind;
        if j < i {
            assert(before[j] == kind);
        }
    }
}

/// The factor by which the content scores are scaled down: one for the
/// content term plus one for each enabled position kind.
pub open spec fn spec_scale_factor(types: PositionAttentionTypes) -> int {
    1 + types.spec_len()
}

/// Computes the scale factor of a set of kinds.
pub fn scale_factor(types: &PositionAttentionTypes) -> (factor: usize)
    ensures
        factor == spec_scale_factor(*types),
        1 <= factor <= 4,
{
    1 + types.len()
}

} // verus!

//! The error taxonomy.
//!
//! Every failure the library reports is one value of [`WaxyError`].  The
//! variants fall into three groups: value validation (a percent outside the
//! unit range, a NaN length, a zero grid line or span), tree structure (a bad
//! child index or an invalid node in a relink), and stale handles (an
//! operation on a node that has been removed).  Predicates over the groups let
//! a host catch broadly, and [`classify_panic`] decides whether the message of
//! an abort coming out of the engine's key-indexed storage denotes a stale
//! handle.

use vstd::prelude::*;

verus! {

/// A typed error of this library.
#[derive(Clone, Debug, PartialEq, Eq)]
pub enum WaxyError {
    /// A percent value (given as the bit pattern of the number) lay outside
    /// the closed unit range.
    InvalidPercent { bits: u32 },
    /// A length value (given as the bit pattern of the number) was NaN.
    InvalidLength { bits: u32 },
    /// A grid line index was zero; lines are numbered from one, negative
    /// indices counting from the end.
    InvalidGridLine,
    /// A grid span count was zero; a span covers at least one track.
    InvalidGridSpan,
    /// A child index was out of bounds for the parent's child list.
    ChildIndexOutOfBounds { child_index: usize, child_count: usize },
    /// The engine reported an invalid parent node.
    InvalidParentNode { id: u64 },
    /// The engine reported an invalid child node.
    InvalidChildNode { id: u64 },
    /// The engine reported an invalid input node.
    InvalidInputNode { id: u64 },
    /// An operation was performed on a node id whose node has been removed
    /// (or which never belonged to this tree).
    InvalidNodeId { id: u64 },
    /// The engine aborted for a reason other than a stale handle; the abort's
    /// message is preserved.
    EnginePanic { message: String },
}

impl WaxyError {
    /// A value-validation error: one of the vocabulary constructors rejected
    /// its argument.
    pub open spec fn is_invalid_value(self) -> bool {
        match self {
            WaxyError::InvalidPercent { .. } => true,
            WaxyError::InvalidLength { .. } => true,
            WaxyError::InvalidGridLine => true,
            WaxyError::InvalidGridSpan => true,
            _ => false,
        }
    }

    /// A missing-key error: the operation named a node that is not present.
    pub open spec fn is_missing_key(self) -> bool {
        self is InvalidNodeId
    }

    /// A structural tree error of the engine's own taxonomy.
    pub open spec fn is_structural(self) -> bool {
        match self {
            WaxyError::ChildIndexOutOfBounds { .. } => true,
            WaxyError::InvalidParentNode { .. } => true,
            WaxyError::InvalidChildNode { .. } => true,
            WaxyError::InvalidInputNode { .. } => true,
            _ => false,
        }
    }

    /// Runtime form of [`WaxyError::is_invalid_value`].
    pub fn invalid_value(&self) -> (r: bool)
        ensures
            r == self.is_invalid_value(),
    {
        match self {
            WaxyError::InvalidPercent { .. } => true,
            WaxyError::InvalidLength { .. } => true,
            WaxyError::InvalidGridLine => true,
            WaxyError::InvalidGridSpan => true,
            _ => false,
        }
    }

    /// Runtime form of [`WaxyError::is_missing_key`].
    pub fn missing_key(&self) -> (r: bool)
        ensures
            r == self.is_missing_key(),
    {
        match self {
            WaxyError::InvalidNodeId { .. } => true,
            _ => false,
        }
    }

    /// Runtime form of [`WaxyError::is_structural`].
    pub fn structural(&self) -> (r: bool)
        ensures
            r == self.is_structural(),
    {
        match self {
            WaxyError::ChildIndexOutOfBounds { .. } => true,
            WaxyError::InvalidParentNode { .. } => true,
            WaxyError::InvalidChildNode { .. } => true,
            WaxyError::InvalidInputNode { .. } => true,
            _ => false,
        }
    }

    /// A short description of the error kind.
    pub fn message(&self) -> (r: String)
        ensures
            r@ == self.spec_message(),
    {
        match self {
            WaxyError::InvalidPercent { .. } => {
                String::from_str("Percent value must be in [0.0, 1.0]")
            },
            WaxyError::InvalidLength { .. } => String::from_str("Length value must not be NaN"),
            WaxyError::InvalidGridLine => {
                String::from_str("GridLine index must not be 0 (grid lines are 1-based)")
            },
            WaxyError::InvalidGridSpan => {
                String::from_str("GridSpan count must be at least 1")
            },
            WaxyError::ChildIndexOutOfBounds { .. } => {
                String::from_str("Child index out of bounds")
            },
            WaxyError::InvalidParentNode { .. } => String::from_str("Invalid parent node"),
            WaxyError::InvalidChildNode { .. } => String::from_str("Invalid child node"),
            WaxyError::InvalidInputNode { .. } => String::from_str("Invalid input node"),
            WaxyError::InvalidNodeId { .. } => {
                String::from_str("Node ID is not present in the tree (was it removed?)")
            },
            WaxyError::EnginePanic { message } => message.clone(),
        }
    }

    /// What [`WaxyError::message`] returns, as a sequence of characters.
    pub open spec fn spec_message(self) -> Seq<char> {
        match self {
            WaxyError::InvalidPercent { .. } => "Percent value must be in [0.0, 1.0]"@,
            WaxyError::InvalidLength { .. } => "Length value must not be NaN"@,
            WaxyError::InvalidGridLine => {
                "GridLine index must not be 0 (grid lines are 1-based)"@
            },
            WaxyError::InvalidGridSpan => "GridSpan count must be at least 1"@,
            WaxyError::ChildIndexOutOfBounds { .. } => "Child index out of bounds"@,
            WaxyError::InvalidParentNode { .. } => "Invalid parent node"@,
            WaxyError::InvalidChildNode { .. } => "Invalid child node"@,
            WaxyError::InvalidInputNode { .. } => "Invalid input node"@,
            WaxyError::InvalidNodeId { .. } => {
                "Node ID is not present in the tree (was it removed?)"@
            },
            WaxyError::EnginePanic { message } => message@,
        }
    }
}

/// The needle occurs in `haystack` starting at position `i`.
pub open spec fn matches_at(haystack: Seq<char>, needle: Seq<char>, i: int) -> bool {
    &&& 0 <= i
    &&& i + needle.len() <= haystack.len()
    &&& haystack.subrange(i, i + needle.len()) == needle
}

/// The needle occurs somewhere in `haystack`.
pub open spec fn contains_seq(haystack: Seq<char>, needle: Seq<char>) -> bool {
    exists|i: int| matches_at(haystack, needle, i)
}

/// Substring search: does `needle` occur in `haystack`?
pub fn contains_str(haystack: &str, needle: &str) -> (r: bool)
    ensures
        r == contains_seq(haystack@, needle@),
{
    let hl: usize = haystack.unicode_len();
    let nl: usize = needle.unicode_len();
    if nl == 0 {
        proof {
            assert(haystack@.subrange(0, 0) =~= needle@);
            assert(matches_at(haystack@, needle@, 0));
        }
        return true;
    }
    if nl > hl {
        assert(forall|i: int| !matches_at(haystack@, needle@, i));
        return false;
    }
    let mut i: usize = 0;
    while i <= hl - nl
        invariant
            0 < nl <= hl,
            hl == haystack@.len(),
            nl == needle@.len(),
            i <= hl - nl + 1,
            forall|k: int| 0 <= k < i ==> !matches_at(haystack@, needle@, k),
        decreases hl - nl + 1 - i,
    {
        let mut j: usize = 0;
        let mut mismatch: bool = false;
        while j < nl && !mismatch
            invariant
                0 < nl <= hl,
                hl == haystack@.len(),
                nl == needle@.len(),
                i <= hl - nl,
                j <= nl,
                !mismatch ==> forall|t: int| 0 <= t < j ==> haystack@[i + t] == needle@[t],
                mismatch ==> !matches_at(haystack@, needle@, i as int),
            decreases (if mismatch { 0int } else { 1int }), nl - j,
    {
            let hc = haystack.get_char(i + j);
            let nc = needle.get_char(j);
            if hc != nc {
                proof {
                    let sub = haystack@.subrange(i as int, i + nl);
                    assert(sub == needle@ ==> sub[j as int] == needle@[j as int]);
                    assert(sub[j as int] == haystack@[i + j]);
                }
                mismatch = true;
            } else {
                j = j + 1;
            }
        }
        if !mismatch {
            proof {
                let sub = haystack@.subrange(i as int, i + nl);
                assert forall|t: int| 0 <= t < nl implies sub[t] == needle@[t] by {
                    assert(haystack@[i + t] == needle@[t]);
                }
                assert(sub =~= needle@);
                assert(matches_at(haystack@, needle@, i as int));
            }
            return true;
        }
        i = i + 1;
    }
    proof {
        assert forall|k: int| !matches_at(haystack@, needle@, k) by {
            if 0 <= k && k + needle@.len() <= haystack@.len() {
                assert(k < i);
            }
        }
    }
    false
}

/// What kind of abort came out of the engine.
#[derive(Clone, Copy, Debug, PartialEq, Eq, Structural)]
pub enum PanicKind {
    /// The engine's key-indexed storage was asked about a removed key; the
    /// abort stands for a stale node handle.
    StaleKey,
    /// Any other abort.
    Other,
}

/// The message of an abort denotes a stale key when it mentions either of the
/// two key-indexed stores the engine keeps nodes in.
pub open spec fn spec_classify_panic(msg: Seq<char>) -> PanicKind {
    if contains_seq(msg, "invalid SlotMap key used"@)
        || contains_seq(msg, "invalid SparseSecondaryMap key used"@) {
        PanicKind::StaleKey
    } else {
        PanicKind::Other
    }
}

/// Decide whether an abort message coming out of the engine denotes a stale
/// node handle, so that the caller can raise a missing-key error for it and
/// re-raise anything else.
pub fn classify_panic(msg: &str) -> (r: PanicKind)
    ensures
        r == spec_classify_panic(msg@),
{
    if contains_str(msg, "invalid SlotMap key used") {
        PanicKind::StaleKey
    } else if contains_str(msg, "invalid SparseSecondaryMap key used") {
        PanicKind::StaleKey
    } else {
        PanicKind::Other
    }
}

/// Translate a classified abort into the typed error it stands for: a stale
/// key becomes [`WaxyError::InvalidNodeId`] carrying the id that was used,
/// any other abort is preserved as [`WaxyError::EnginePanic`] with its
/// message.
pub fn panic_to_error(msg: String, id: u64) -> (r: WaxyError)
    ensures
        spec_classify_panic(msg@) == PanicKind::StaleKey ==> r == (WaxyError::InvalidNodeId {
            id,
        }),
        spec_classify_panic(msg@) == PanicKind::Other ==> r == (WaxyError::EnginePanic {
            message: msg,
        }),
{
    match classify_panic(msg.as_str()) {
        PanicKind::StaleKey => WaxyError::InvalidNodeId { id },
        PanicKind::Other => WaxyError::EnginePanic { message: msg },
    }
}

} // verus!

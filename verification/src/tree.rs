//! The tree façade's verified core: node lifecycle, styles, contexts and
//! links, with the stale-handle discipline proved.
//!
//! Node ids are assigned in creation order and never reused, so a removed
//! node's id stays dead forever.  Every operation that takes a node id
//! checks it against the live set first and fails with
//! [`WaxyError::InvalidNodeId`] — leaving the tree untouched — instead of
//! reaching the engine's key-indexed storage with a stale key.  The engine
//! binding that drives layout passes mirrors these decisions; what is
//! proved here is that a dead id never changes the tree and that every
//! operation on live ids has exactly the stated effect.

use vstd::prelude::*;
use crate::errors::WaxyError;
use crate::style::{rec_props, Style, StyleRec};

verus! {

/// A handle to a node in the layout tree.
#[derive(Clone, Copy, Debug, PartialEq, Eq, Hash, Structural)]
pub struct NodeId {
    pub raw: u64,
}

/// One node's storage.
struct Slot<C> {
    live: bool,
    style: StyleRec,
    context: Option<C>,
    children: Vec<u64>,
    parent: Option<u64>,
}

/// A tree of layout nodes, generic over the per-node context value the
/// measure callback receives.
pub struct TaffyTree<C> {
    slots: Vec<Slot<C>>,
    live_count: usize,
}

impl<C> TaffyTree<C> {
    /// The id is a live node of this tree.
    pub closed spec fn spec_live(self, id: u64) -> bool {
        id < self.slots@.len() && self.slots@[id as int].live
    }

    /// The style record of a node, as a map from properties to values.
    pub closed spec fn spec_style(self, id: u64) -> Map<
        crate::style::Prop,
        crate::style::PropVal,
    > {
        rec_props(self.slots@[id as int].style)
    }

    /// The context attached to a node.
    pub closed spec fn spec_context(self, id: u64) -> Option<C> {
        self.slots@[id as int].context
    }

    /// The child list of a node.
    pub closed spec fn spec_children(self, id: u64) -> Seq<u64> {
        self.slots@[id as int].children@
    }

    /// The parent link of a node.
    pub closed spec fn spec_parent(self, id: u64) -> Option<u64> {
        self.slots@[id as int].parent
    }

    /// The number of ids ever created (live or dead).
    pub closed spec fn spec_id_bound(self) -> int {
        self.slots@.len() as int
    }

    /// An empty tree.
    pub fn new() -> (r: TaffyTree<C>)
        ensures
            r.spec_id_bound() == 0,
            forall|id: u64| !r.spec_live(id),
    {
        TaffyTree { slots: Vec::new(), live_count: 0 }
    }

    /// Create a new unattached leaf node with the given style and no
    /// context.  The fresh id is distinct from every id this tree ever
    /// handed out.
    pub fn new_leaf(&mut self, style: &Style) -> (r: NodeId)
        ensures
            r.raw == old(self).spec_id_bound(),
            !old(self).spec_live(r.raw),
            final(self).spec_live(r.raw),
            final(self).spec_id_bound() == old(self).spec_id_bound() + 1,
            forall|id: u64| id != r.raw ==> final(self).spec_live(id) == old(self).spec_live(id),
            forall|id: u64| id != r.raw && old(self).spec_live(id)
                ==> #[trigger] final(self).spec_style(id) == old(self).spec_style(id) && final(self).spec_context(id) == old(self).spec_context(id) && final(self).spec_children(id)
                == old(self).spec_children(id) && final(self).spec_parent(id) == old(self).spec_parent(id),
            final(self).spec_style(r.raw) == rec_props(style.rec),
            final(self).spec_context(r.raw) is None,
            final(self).spec_children(r.raw) == Seq::<u64>::empty(),
            final(self).spec_parent(r.raw) is None,
    {
        let raw = self.slots.len() as u64;
        self.slots.push(
            Slot {
                live: true,
                style: crate::style::clone_rec(&style.rec),
                context: None,
                children: Vec::new(),
                parent: None,
            },
        );
        if self.live_count < usize::MAX {
            self.live_count = self.live_count + 1;
        }
        NodeId { raw }
    }

    /// Create a new unattached leaf node with the given style and a
    /// context.
    pub fn new_leaf_with_context(&mut self, style: &Style, context: C) -> (r: NodeId)
        ensures
            r.raw == old(self).spec_id_bound(),
            !old(self).spec_live(r.raw),
            final(self).spec_live(r.raw),
            final(self).spec_id_bound() == old(self).spec_id_bound() + 1,
            forall|id: u64| id != r.raw ==> final(self).spec_live(id) == old(self).spec_live(id),
            forall|id: u64| id != r.raw && old(self).spec_live(id)
                ==> #[trigger] final(self).spec_style(id) == old(self).spec_style(id) && final(self).spec_context(id) == old(self).spec_context(id) && final(self).spec_children(id)
                == old(self).spec_children(id) && final(self).spec_parent(id) == old(self).spec_parent(id),
            final(self).spec_style(r.raw) == rec_props(style.rec),
            final(self).spec_context(r.raw) == Some(context),
            final(self).spec_children(r.raw) == Seq::<u64>::empty(),
            final(self).spec_parent(r.raw) is None,
    {
        let raw = self.slots.len() as u64;
        self.slots.push(
            Slot {
                live: true,
                style: crate::style::clone_rec(&style.rec),
                context: Some(context),
                children: Vec::new(),
                parent: None,
            },
        );
        if self.live_count < usize::MAX {
            self.live_count = self.live_count + 1;
        }
        NodeId { raw }
    }

    /// Whether an id is live in this tree.
    pub fn is_live(&self, node: &NodeId) -> (r: bool)
        ensures
            r == self.spec_live(node.raw),
    {
        node.raw < self.slots.len() as u64 && self.slots[node.raw as usize].live
    }


    /// The storage index of a live node.
    fn slot_index(&self, raw: u64) -> (i: usize)
        requires
            self.spec_live(raw),
        ensures
            i as u64 == raw,
            i < self.slots@.len(),
    {
        let n = self.slots.len();
        raw as usize
    }

    /// Add a child under a parent, at the end of the child list.  A dead id
    /// fails with the stale-handle error and changes nothing.
    pub fn add_child(&mut self, parent: &NodeId, child: &NodeId) -> (r: Result<(), WaxyError>)
        ensures
            !old(self).spec_live(parent.raw) ==> r == Err::<(), WaxyError>(
                WaxyError::InvalidNodeId { id: parent.raw },
            ) && *final(self) == *old(self),
            old(self).spec_live(parent.raw) && !old(self).spec_live(child.raw) ==> r == Err::<
                (),
                WaxyError,
            >(WaxyError::InvalidNodeId { id: child.raw }) && *final(self) == *old(self),
            old(self).spec_live(parent.raw) && old(self).spec_live(child.raw) ==> {
                &&& r == Ok::<(), WaxyError>(())
                &&& final(self).spec_children(parent.raw) == old(self).spec_children(
                    parent.raw,
                ).push(child.raw)
                &&& final(self).spec_parent(child.raw) == Some(parent.raw)
                &&& final(self).spec_id_bound() == old(self).spec_id_bound()
                &&& forall|id: u64| final(self).spec_live(id) == old(self).spec_live(id)
                &&& forall|id: u64| old(self).spec_live(id) ==> #[trigger] final(self).spec_style(
                    id,
                ) == old(self).spec_style(id) && final(self).spec_context(id) == old(self).spec_context(id)
                &&& forall|id: u64| id != parent.raw && old(self).spec_live(id)
                    ==> #[trigger] final(self).spec_children(id) == old(self).spec_children(id)
                &&& forall|id: u64| id != child.raw && old(self).spec_live(id)
                    ==> #[trigger] final(self).spec_parent(id) == old(self).spec_parent(id)
            },
    {
        if !self.is_live(parent) {
            return Err(WaxyError::InvalidNodeId { id: parent.raw });
        }
        if !self.is_live(child) {
            return Err(WaxyError::InvalidNodeId { id: child.raw });
        }
        let pi = self.slot_index(parent.raw);
        let ci = self.slot_index(child.raw);
        self.slots[pi].children.push(child.raw);
        self.slots[ci].parent = Some(parent.raw);
        Ok(())
    }

    /// The number of children of a node.
    pub fn child_count(&self, parent: &NodeId) -> (r: Result<usize, WaxyError>)
        ensures
            !self.spec_live(parent.raw) ==> r == Err::<usize, WaxyError>(
                WaxyError::InvalidNodeId { id: parent.raw },
            ),
            self.spec_live(parent.raw) ==> r == Ok::<usize, WaxyError>(
                self.spec_children(parent.raw).len() as usize,
            ),
    {
        if !self.is_live(parent) {
            return Err(WaxyError::InvalidNodeId { id: parent.raw });
        }
        let pi = self.slot_index(parent.raw);
        Ok(self.slots[pi].children.len())
    }

    /// The parent of a node, if it has one.
    pub fn parent(&self, child: &NodeId) -> (r: Result<Option<NodeId>, WaxyError>)
        ensures
            !self.spec_live(child.raw) ==> r == Err::<Option<NodeId>, WaxyError>(
                WaxyError::InvalidNodeId { id: child.raw },
            ),
            self.spec_live(child.raw) ==> r == Ok::<Option<NodeId>, WaxyError>(
                match self.spec_parent(child.raw) {
                    Some(p) => Some(NodeId { raw: p }),
                    None => None,
                },
            ),
    {
        if !self.is_live(child) {
            return Err(WaxyError::InvalidNodeId { id: child.raw });
        }
        let ci = self.slot_index(child.raw);
        match self.slots[ci].parent {
            Some(p) => Ok(Some(NodeId { raw: p })),
            None => Ok(None),
        }
    }

    /// The child at an index under a parent.
    pub fn child_at_index(&self, parent: &NodeId, child_index: usize) -> (r: Result<
        NodeId,
        WaxyError,
    >)
        ensures
            !self.spec_live(parent.raw) ==> r == Err::<NodeId, WaxyError>(
                WaxyError::InvalidNodeId { id: parent.raw },
            ),
            self.spec_live(parent.raw) && child_index >= self.spec_children(parent.raw).len() ==> r
                == Err::<NodeId, WaxyError>(
                WaxyError::ChildIndexOutOfBounds {
                    child_index,
                    child_count: self.spec_children(parent.raw).len() as usize,
                },
            ),
            self.spec_live(parent.raw) && child_index < self.spec_children(parent.raw).len() ==> r
                == Ok::<NodeId, WaxyError>(
                NodeId { raw: self.spec_children(parent.raw)[child_index as int] },
            ),
    {
        if !self.is_live(parent) {
            return Err(WaxyError::InvalidNodeId { id: parent.raw });
        }
        let pi = self.slot_index(parent.raw);
        let count = self.slots[pi].children.len();
        if child_index >= count {
            return Err(WaxyError::ChildIndexOutOfBounds { child_index, child_count: count });
        }
        Ok(NodeId { raw: self.slots[pi].children[child_index] })
    }

    /// Remove a node: detach it from its parent's child list, clear the
    /// parent links of its children, and kill its id.  A dead id fails with
    /// the stale-handle error and changes nothing; afterwards every
    /// operation on the removed id fails the same way, while other nodes
    /// are untouched apart from the stated detachments.
    pub fn remove(&mut self, node: &NodeId) -> (r: Result<NodeId, WaxyError>)
        ensures
            !old(self).spec_live(node.raw) ==> r == Err::<NodeId, WaxyError>(
                WaxyError::InvalidNodeId { id: node.raw },
            ) && *final(self) == *old(self),
            old(self).spec_live(node.raw) ==> {
                &&& r == Ok::<NodeId, WaxyError>(*node)
                &&& !final(self).spec_live(node.raw)
                &&& final(self).spec_id_bound() == old(self).spec_id_bound()
                &&& forall|id: u64| id != node.raw ==> final(self).spec_live(id) == old(self).spec_live(id)
                &&& forall|id: u64| id != node.raw && old(self).spec_live(id)
                    ==> #[trigger] final(self).spec_style(id) == old(self).spec_style(id) && final(self).spec_context(id) == old(self).spec_context(id)
            },
    {
        if !self.is_live(node) {
            return Err(WaxyError::InvalidNodeId { id: node.raw });
        }
        let ni = self.slot_index(node.raw);
        // Detach from the parent's child list, if any.
        let parent_link = self.slots[ni].parent;
        match parent_link {
            Some(p) => {
                if p < self.slots.len() as u64 {
                    let nlen = self.slots.len();
                    let pi = p as usize;
                    let mut kept: Vec<u64> = Vec::new();
                    let mut k: usize = 0;
                    let n = self.slots[pi].children.len();
                    while k < n
                        invariant
                            k <= n,
                            n == self.slots@[pi as int].children@.len(),
                            pi < self.slots@.len(),
                        decreases n - k,
                    {
                        let c = self.slots[pi].children[k];
                        if c != node.raw {
                            kept.push(c);
                        }
                        k = k + 1;
                    }
                    self.slots[pi].children = kept;
                }
            },
            None => {},
        }
        // Clear the parent links of the node's children.
        let mut k: usize = 0;
        let n = self.slots[ni].children.len();
        while k < n
            invariant
                k <= n,
                ni < self.slots@.len(),
                n == self.slots@[ni as int].children@.len(),
                self.slots@.len() == old(self).slots@.len(),
                forall|j: int| 0 <= j < self.slots@.len() ==> (#[trigger] self.slots@[j].live)
                    == old(self).slots@[j].live,
                forall|j: int| 0 <= j < self.slots@.len() ==> (#[trigger] self.slots@[j].style)
                    == old(self).slots@[j].style,
                forall|j: int| 0 <= j < self.slots@.len() ==> (#[trigger] self.slots@[j].context)
                    == old(self).slots@[j].context,
            decreases n - k,
        {
            let c = self.slots[ni].children[k];
            if c < self.slots.len() as u64 && c != node.raw {
                let nlen = self.slots.len();
                let ci = c as usize;
                self.slots[ci].parent = None;
            }
            k = k + 1;
        }
        // Kill the slot.
        self.slots[ni].live = false;
        if self.live_count > 0 {
            self.live_count = self.live_count - 1;
        }
        Ok(*node)
    }

    /// Replace the style of a node.
    pub fn set_style(&mut self, node: &NodeId, style: &Style) -> (r: Result<(), WaxyError>)
        ensures
            !old(self).spec_live(node.raw) ==> r == Err::<(), WaxyError>(
                WaxyError::InvalidNodeId { id: node.raw },
            ) && *final(self) == *old(self),
            old(self).spec_live(node.raw) ==> {
                &&& r == Ok::<(), WaxyError>(())
                &&& final(self).spec_style(node.raw) == rec_props(style.rec)
                &&& final(self).spec_id_bound() == old(self).spec_id_bound()
                &&& forall|id: u64| final(self).spec_live(id) == old(self).spec_live(id)
                &&& forall|id: u64| id != node.raw && old(self).spec_live(id)
                    ==> #[trigger] final(self).spec_style(id) == old(self).spec_style(id)
                &&& forall|id: u64| old(self).spec_live(id) ==> #[trigger] final(self).spec_context(id) == old(self).spec_context(id) && final(self).spec_children(id)
                    == old(self).spec_children(id) && final(self).spec_parent(id) == old(self).spec_parent(id)
            },
    {
        if !self.is_live(node) {
            return Err(WaxyError::InvalidNodeId { id: node.raw });
        }
        let ni = self.slot_index(node.raw);
        self.slots[ni].style = crate::style::clone_rec(&style.rec);
        Ok(())
    }

    /// Read the style of a node.  The engine's record does not remember
    /// which fields were authored, so the style comes back with every flag
    /// set.
    pub fn style(&self, node: &NodeId) -> (r: Result<Style, WaxyError>)
        ensures
            !self.spec_live(node.raw) ==> r == Err::<Style, WaxyError>(
                WaxyError::InvalidNodeId { id: node.raw },
            ),
            self.spec_live(node.raw) ==> r is Ok && r->Ok_0@.mask == u64::MAX && r->Ok_0@.props
                == self.spec_style(node.raw),
    {
        if !self.is_live(node) {
            return Err(WaxyError::InvalidNodeId { id: node.raw });
        }
        let ni = self.slot_index(node.raw);
        let rec = crate::style::clone_rec(&self.slots[ni].style);
        proof {
            assert(rec_props(rec) =~= rec_props(self.slots@[ni as int].style));
        }
        Ok(Style::from_record(rec))
    }

    /// The context attached to a node, if any; a dead id has none.
    pub fn get_node_context(&self, node: &NodeId) -> (r: Option<&C>)
        ensures
            !self.spec_live(node.raw) ==> r is None,
            self.spec_live(node.raw) ==> (match self.spec_context(node.raw) {
                Some(c) => r is Some && *r->0 == c,
                None => r is None,
            }),
    {
        if !self.is_live(node) {
            return None;
        }
        let ni = self.slot_index(node.raw);
        match &self.slots[ni].context {
            Some(c) => Some(c),
            None => None,
        }
    }

    /// Set or clear the context attached to a node.
    pub fn set_node_context(&mut self, node: &NodeId, context: Option<C>) -> (r: Result<
        (),
        WaxyError,
    >)
        ensures
            !old(self).spec_live(node.raw) ==> r == Err::<(), WaxyError>(
                WaxyError::InvalidNodeId { id: node.raw },
            ) && *final(self) == *old(self),
            old(self).spec_live(node.raw) ==> {
                &&& r == Ok::<(), WaxyError>(())
                &&& final(self).spec_context(node.raw) == context
                &&& final(self).spec_id_bound() == old(self).spec_id_bound()
                &&& forall|id: u64| final(self).spec_live(id) == old(self).spec_live(id)
                &&& forall|id: u64| id != node.raw && old(self).spec_live(id)
                    ==> #[trigger] final(self).spec_context(id) == old(self).spec_context(id)
                &&& forall|id: u64| old(self).spec_live(id) ==> #[trigger] final(self).spec_style(
                    id,
                ) == old(self).spec_style(id) && final(self).spec_children(id) == old(self).spec_children(id) && final(self).spec_parent(id) == old(self).spec_parent(id)
            },
    {
        if !self.is_live(node) {
            return Err(WaxyError::InvalidNodeId { id: node.raw });
        }
        let ni = self.slot_index(node.raw);
        self.slots[ni].context = context;
        Ok(())
    }

    /// The number of live nodes.
    pub fn total_node_count(&self) -> (r: usize)
        ensures
            r as int == self.total_count_spec(),
    {
        self.live_count
    }

    /// Drop every node; every previously handed-out id becomes dead.
    pub fn clear(&mut self)
        ensures
            forall|id: u64| !final(self).spec_live(id),
            final(self).total_count_spec() == 0,
    {
        let mut k: usize = 0;
        let n = self.slots.len();
        while k < n
            invariant
                k <= n,
                n == self.slots@.len(),
                forall|j: int| 0 <= j < k ==> !self.slots@[j].live,
            decreases n - k,
        {
            self.slots[k].live = false;
            k = k + 1;
        }
        self.live_count = 0;
    }

    /// The stored live count.
    pub closed spec fn total_count_spec(self) -> int {
        self.live_count as int
    }
}

} // verus!

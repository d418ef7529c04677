//! Retained scene graph with dirty-flag tracking.
//!
//! Scene nodes are created once and only re-uploaded when they change. The
//! scene is generic over its node payload: it owns identity, insertion order
//! and dirty state, while the payload (rectangles, text runs, …) is whatever
//! the renderer draws.
use vstd::prelude::*;

verus! {

/// Unique identifier for a scene node.
#[derive(Debug, Clone, Copy, PartialEq, Eq, Hash, Structural)]
pub struct NodeId(pub u32);

/// A node stored in the scene, with its dirty flag and update generation.
#[derive(Debug)]
pub struct NodeEntry<N> {
    /// The node's identifier.
    pub id: NodeId,
    /// The node's payload.
    pub node: N,
    /// Whether the node changed since the last [`Scene::clear_dirty`].
    pub dirty: bool,
    /// Generation counter — incremented (wrapping) on each update.
    pub generation: u64,
}

/// The mathematical content of a [`Scene`].
pub struct SceneView<N> {
    /// The entries, in insertion order.
    pub entries: Seq<NodeEntry<N>>,
    /// The identifier the next added node receives.
    pub next_id: u32,
    /// Global dirty flag.
    pub dirty: bool,
}

/// The generation that follows `g` (wrapping at `u64::MAX`).
pub open spec fn next_generation(g: u64) -> u64 {
    if g == u64::MAX { 0 } else { (g + 1) as u64 }
}

impl<N> SceneView<N> {
    /// Well-formedness: identifiers strictly increase in insertion order and
    /// are all below `next_id`; a dirty node implies the global dirty flag.
    pub open spec fn wf(self) -> bool {
        &&& forall|i: int, j: int|
            0 <= i < j < self.entries.len() ==> (#[trigger] self.entries[i]).id.0 < (#[trigger] self.entries[j]).id.0
        &&& forall|i: int| 0 <= i < self.entries.len() ==> (#[trigger] self.entries[i]).id.0 < self.next_id
        &&& forall|i: int| 0 <= i < self.entries.len() && (#[trigger] self.entries[i]).dirty ==> self.dirty
    }

    /// The identifiers of the nodes, in insertion order.
    pub open spec fn ids(self) -> Seq<NodeId> {
        self.entries.map_values(|e: NodeEntry<N>| e.id)
    }

    /// Whether a node with identifier `id` is in the scene.
    pub open spec fn contains(self, id: NodeId) -> bool {
        exists|i: int| 0 <= i < self.entries.len() && (#[trigger] self.entries[i]).id == id
    }

    /// The position of the node with identifier `id` (meaningful when it is present).
    pub open spec fn index_of(self, id: NodeId) -> int {
        choose|i: int| 0 <= i < self.entries.len() && (#[trigger] self.entries[i]).id == id
    }

    /// The scene after adding `node`.
    pub open spec fn after_add(self, node: N) -> SceneView<N> {
        SceneView {
            entries: self.entries.push(NodeEntry { id: NodeId(self.next_id), node, dirty: true, generation: 0 }),
            next_id: (self.next_id + 1) as u32,
            dirty: true,
        }
    }

    /// The scene after replacing the payload of node `id` (unchanged if absent).
    pub open spec fn after_update(self, id: NodeId, node: N) -> SceneView<N> {
        if self.contains(id) {
            let k = self.index_of(id);
            SceneView {
                entries: self.entries.update(
                    k,
                    NodeEntry { id, node, dirty: true, generation: next_generation(self.entries[k].generation) },
                ),
                next_id: self.next_id,
                dirty: true,
            }
        } else {
            self
        }
    }

    /// The scene after removing node `id` (unchanged if absent).
    pub open spec fn after_remove(self, id: NodeId) -> SceneView<N> {
        if self.contains(id) {
            SceneView { entries: self.entries.remove(self.index_of(id)), next_id: self.next_id, dirty: true }
        } else {
            self
        }
    }

    /// The scene after removing each of `ids`, in order.
    pub open spec fn after_remove_all(self, ids: Seq<NodeId>) -> SceneView<N>
        decreases ids.len(),
    {
        if ids.len() == 0 {
            self
        } else {
            self.after_remove(ids[0]).after_remove_all(ids.drop_first())
        }
    }

    /// The scene after adding each of `nodes`, in order.
    pub open spec fn after_add_all(self, nodes: Seq<N>) -> SceneView<N>
        decreases nodes.len(),
    {
        if nodes.len() == 0 {
            self
        } else {
            self.after_add(nodes[0]).after_add_all(nodes.drop_first())
        }
    }

    /// The nodes that are dirty, in insertion order.
    pub open spec fn dirty_entries(self) -> Seq<NodeEntry<N>> {
        dirty_of(self.entries)
    }
}

/// The entries of `entries` that are dirty, in order.
pub open spec fn dirty_of<N>(entries: Seq<NodeEntry<N>>) -> Seq<NodeEntry<N>>
    decreases entries.len(),
{
    if entries.len() == 0 {
        seq![]
    } else {
        let prev = dirty_of(entries.drop_last());
        if entries.last().dirty {
            prev.push(entries.last())
        } else {
            prev
        }
    }
}

/// Retained scene graph container.
///
/// Owns all scene nodes and tracks which ones are dirty (need re-upload).
/// Thread safety: single-threaded, immediate-mutating API.
pub struct Scene<N> {
    nodes: Vec<NodeEntry<N>>,
    next_id: u32,
    /// Global dirty flag — set when any node changes.
    dirty: bool,
}

impl<N> View for Scene<N> {
    type V = SceneView<N>;

    closed spec fn view(&self) -> SceneView<N> {
        SceneView { entries: self.nodes@, next_id: self.next_id, dirty: self.dirty }
    }
}

impl<N> Scene<N> {
    /// Every scene is well formed (see [`SceneView::wf`]).
    #[verifier::type_invariant]
    pub open spec fn wf(&self) -> bool {
        self@.wf()
    }

    /// Create a new empty scene.
    pub fn new() -> (s: Self)
        ensures
            s@.entries.len() == 0,
            s@.next_id == 0,
            !s@.dirty,
    {
        Scene { nodes: Vec::new(), next_id: 0, dirty: false }
    }

    /// How many more nodes can be added: identifiers are never reused, so
    /// a scene takes at most `u32::MAX` additions over its lifetime.
    pub fn remaining_ids(&self) -> (r: u64)
        ensures
            r == u32::MAX - self@.next_id,
    {
        (u32::MAX - self.next_id) as u64
    }

    /// Add a node. Returns its identifier, which no node of this scene has
    /// had before.
    pub fn add(&mut self, node: N) -> (id: NodeId)
        requires
            old(self)@.next_id < u32::MAX,
        ensures
            id == NodeId(old(self)@.next_id),
            !old(self)@.contains(id),
            final(self)@ == old(self)@.after_add(node),
    {
        proof {
            use_type_invariant(&*self);
        }
        let mut nodes = self.take_nodes();
        let id = NodeId(self.next_id);
        self.next_id = self.next_id + 1;
        self.dirty = true;
        nodes.push(NodeEntry { id, node, dirty: true, generation: 0 });
        proof {
            operations_preserve_wf(old(self)@, id, node);
            assert(nodes@ =~= old(self)@.after_add(node).entries);
        }
        self.nodes = nodes;
        proof {
            assert(self@.entries =~= old(self)@.after_add(node).entries);
        }
        id
    }

    fn find(&self, id: NodeId) -> (r: Option<usize>)
        ensures
            r matches Some(k) ==> self@.contains(id) && k == self@.index_of(id),
            r is None ==> !self@.contains(id),
    {
        proof {
            use_type_invariant(self);
        }
        let n = self.nodes.len();
        let mut i: usize = 0;
        while i < n
            invariant
                self@.wf(),
                n == self@.entries.len(),
                0 <= i <= n,
                forall|j: int| 0 <= j < i ==> (#[trigger] self@.entries[j]).id != id,
            decreases n - i,
        {
            if self.nodes[i].id == id {
                proof {
                    let k = self@.index_of(id);
                    assert(self@.entries[i as int].id == id);
                    assert(self@.contains(id));
                    if k != i as int {
                        if k < i {
                            assert(self@.entries[k].id.0 < self@.entries[i as int].id.0);
                        } else {
                            assert(self@.entries[i as int].id.0 < self@.entries[k].id.0);
                        }
                    }
                }
                return Some(i);
            }
            i += 1;
        }
        None
    }

    /// Replace the payload of an existing node and mark it dirty.
    ///
    /// Returns `true` if the node was found and updated.
    pub fn update(&mut self, id: NodeId, node: N) -> (r: bool)
        ensures
            r == old(self)@.contains(id),
            final(self)@ == old(self)@.after_update(id, node),
    {
        match self.find(id) {
            Some(k) => {
                proof {
                    use_type_invariant(&*self);
                }
                self.dirty = true;
                let mut nodes = self.take_nodes();
                let entry = &mut nodes[k];
                entry.node = node;
                entry.dirty = true;
                entry.generation = if entry.generation == u64::MAX { 0 } else { entry.generation + 1 };
                proof {
                    assert(nodes@ =~= old(self)@.after_update(id, node).entries);
                    operations_preserve_wf(old(self)@, id, node);
                }
                self.nodes = nodes;
                proof {
                    assert(self@.entries =~= old(self)@.after_update(id, node).entries);
                }
                true
            },
            None => false,
        }
    }

    /// Remove a node by ID. Returns `true` if found.
    pub fn remove(&mut self, id: NodeId) -> (r: bool)
        ensures
            r == old(self)@.contains(id),
            final(self)@ == old(self)@.after_remove(id),
    {
        match self.find(id) {
            Some(k) => {
                proof {
                    use_type_invariant(&*self);
                    operations_preserve_wf(self@, id, self@.entries[k as int].node);
                }
                self.dirty = true;
                let mut nodes = self.take_nodes();
                nodes.remove(k);
                self.nodes = nodes;
                true
            },
            None => false,
        }
    }

    /// Move the node list out, leaving the scene empty (and so well formed).
    fn take_nodes(&mut self) -> (nodes: Vec<NodeEntry<N>>)
        ensures
            nodes@ == old(self)@.entries,
            final(self)@.entries.len() == 0,
            final(self)@.next_id == old(self)@.next_id,
            final(self)@.dirty == old(self)@.dirty,
    {
        let mut nodes: Vec<NodeEntry<N>> = Vec::new();
        std::mem::swap(&mut nodes, &mut self.nodes);
        nodes
    }

    /// Check if any node is dirty (needs re-render).
    pub fn is_dirty(&self) -> (r: bool)
        ensures
            r == self@.dirty,
    {
        self.dirty
    }

    /// All nodes with their identifiers, in insertion order.
    pub fn iter(&self) -> (r: Vec<(NodeId, &N)>)
        ensures
            r@.len() == self@.entries.len(),
            forall|i: int|
                0 <= i < r@.len() ==> (#[trigger] r@[i]).0 == self@.entries[i].id && r@[i].1 == self@.entries[i].node,
    {
        let n = self.nodes.len();
        let mut out: Vec<(NodeId, &N)> = Vec::new();
        let mut i: usize = 0;
        while i < n
            invariant
                n == self@.entries.len(),
                0 <= i <= n,
                out@.len() == i,
                forall|j: int|
                    0 <= j < i ==> (#[trigger] out@[j]).0 == self@.entries[j].id && out@[j].1 == self@.entries[j].node,
            decreases n - i,
        {
            let e = &self.nodes[i];
            out.push((e.id, &e.node));
            i += 1;
        }
        out
    }

    /// Dirty nodes with their identifiers, in insertion order (for
    /// incremental re-upload).
    pub fn dirty_nodes(&self) -> (r: Vec<(NodeId, &N)>)
        ensures
            r@.map_values(|p: (NodeId, &N)| p.0) == self@.dirty_entries().map_values(|e: NodeEntry<N>| e.id),
            r@.map_values(|p: (NodeId, &N)| *p.1) == self@.dirty_entries().map_values(|e: NodeEntry<N>| e.node),
    {
        let n = self.nodes.len();
        let mut out: Vec<(NodeId, &N)> = Vec::new();
        let mut i: usize = 0;
        while i < n
            invariant
                n == self@.entries.len(),
                0 <= i <= n,
                out@.map_values(|p: (NodeId, &N)| p.0) == dirty_of(self@.entries.take(i as int)).map_values(
                    |e: NodeEntry<N>| e.id,
                ),
                out@.map_values(|p: (NodeId, &N)| *p.1) == dirty_of(self@.entries.take(i as int)).map_values(
                    |e: NodeEntry<N>| e.node,
                ),
            decreases n - i,
        {
            proof {
                assert(self@.entries.take(i + 1).drop_last() =~= self@.entries.take(i as int));
            }
            let ghost prev = out@;
            let e = &self.nodes[i];
            if e.dirty {
                out.push((e.id, &e.node));
            }
            proof {
                let pd = dirty_of(self@.entries.take(i as int));
                assert(prev.map_values(|p: (NodeId, &N)| p.0) == pd.map_values(|e: NodeEntry<N>| e.id));
                assert(prev.map_values(|p: (NodeId, &N)| p.0).len() == prev.len());
                assert(pd.map_values(|e: NodeEntry<N>| e.id).len() == pd.len());
                assert(prev.len() == pd.len());
                assert forall|j: int| 0 <= j < prev.len() implies #[trigger] prev[j].0 == pd[j].id by {
                    assert(prev.map_values(|p: (NodeId, &N)| p.0)[j] == pd.map_values(|e: NodeEntry<N>| e.id)[j]);
                }
                assert forall|j: int| 0 <= j < prev.len() implies #[trigger] prev[j].1 == pd[j].node by {
                    assert(prev.map_values(|p: (NodeId, &N)| *p.1)[j] == pd.map_values(|e: NodeEntry<N>| e.node)[j]);
                }
                let t = self@.entries.take(i + 1);
                assert(t.last() == self@.entries[i as int]);
                assert(t.drop_last() =~= self@.entries.take(i as int));
                let f = dirty_of(t);
                if self@.entries[i as int].dirty {
                    assert(f == dirty_of(self@.entries.take(i as int)).push(self@.entries[i as int]));
                } else {
                    assert(f == dirty_of(self@.entries.take(i as int)));
                }
                assert(out@.map_values(|p: (NodeId, &N)| p.0) =~= f.map_values(|e: NodeEntry<N>| e.id));
                assert(out@.map_values(|p: (NodeId, &N)| *p.1) =~= f.map_values(|e: NodeEntry<N>| e.node));
            }
            i += 1;
        }
        proof {
            assert(self@.entries.take(n as int) =~= self@.entries);
        }
        out
    }

    /// Clear all dirty flags after a successful render.
    pub fn clear_dirty(&mut self)
        ensures
            !final(self)@.dirty,
            final(self)@.next_id == old(self)@.next_id,
            final(self)@.entries.len() == old(self)@.entries.len(),
            forall|i: int|
                0 <= i < final(self)@.entries.len() ==> {
                    let e = #[trigger] final(self)@.entries[i];
                    let o = old(self)@.entries[i];
                    &&& e.id == o.id
                    &&& e.node == o.node
                    &&& e.generation == o.generation
                    &&& !e.dirty
                },
    {
        proof {
            use_type_invariant(&*self);
        }
        let mut nodes = self.take_nodes();
        self.dirty = false;
        let n = nodes.len();
        let mut i: usize = 0;
        while i < n
            invariant
                n == nodes@.len(),
                0 <= i <= n,
                self@.next_id == old(self)@.next_id,
                !self@.dirty,
                self@.entries.len() == 0,
                old(self)@.wf(),
                nodes@.len() == old(self)@.entries.len(),
                forall|j: int|
                    0 <= j < n ==> {
                        let e = #[trigger] nodes@[j];
                        let o = old(self)@.entries[j];
                        &&& e.id == o.id
                        &&& e.node == o.node
                        &&& e.generation == o.generation
                        &&& (j < i ==> !e.dirty)
                        &&& (j >= i ==> e.dirty == o.dirty)
                    },
            decreases n - i,
        {
            let entry = &mut nodes[i];
            entry.dirty = false;
            i += 1;
        }
        proof {
            let s = nodes@;
            let o = old(self)@.entries;
            assert forall|a: int, b: int| 0 <= a < b < s.len() implies (#[trigger] s[a]).id.0 < (#[trigger] s[b]).id.0 by {
                assert(o[a].id.0 < o[b].id.0);
            }
            assert forall|a: int| 0 <= a < s.len() implies (#[trigger] s[a]).id.0 < self@.next_id by {
                assert(o[a].id.0 < old(self)@.next_id);
            }
        }
        self.nodes = nodes;
    }

    /// Number of nodes in the scene.
    pub fn len(&self) -> (r: usize)
        ensures
            r == self@.entries.len(),
    {
        self.nodes.len()
    }

    /// Whether the scene is empty.
    pub fn is_empty(&self) -> (r: bool)
        ensures
            r == (self@.entries.len() == 0),
    {
        self.nodes.len() == 0
    }
}


/// The identifiers `first`, `first + 1`, …, `first + count - 1`.
pub open spec fn fresh_ids(first: u32, count: nat) -> Seq<NodeId> {
    Seq::new(count, |i: int| NodeId((first + i) as u32))
}

// ─── Laws ───────────────────────────────────────────────────────────────────

/// Every operation keeps a well-formed scene well formed.
pub proof fn operations_preserve_wf<N>(s: SceneView<N>, id: NodeId, node: N)
    requires
        s.wf(),
    ensures
        s.next_id < u32::MAX ==> s.after_add(node).wf(),
        s.after_update(id, node).wf(),
        s.after_remove(id).wf(),
{
    if s.contains(id) {
        let k = s.index_of(id);
        let u = s.after_update(id, node).entries;
        assert forall|i: int, j: int| 0 <= i < j < u.len() implies (#[trigger] u[i]).id.0 < (#[trigger] u[j]).id.0 by {
            assert(u[i].id == s.entries[i].id);
            assert(u[j].id == s.entries[j].id);
        }
        assert forall|i: int| 0 <= i < u.len() implies (#[trigger] u[i]).id.0 < s.next_id by {
            assert(u[i].id == s.entries[i].id);
        }
        let r = s.after_remove(id).entries;
        assert forall|i: int, j: int| 0 <= i < j < r.len() implies (#[trigger] r[i]).id.0 < (#[trigger] r[j]).id.0 by {
            let oi = if i < k { i } else { i + 1 };
            let oj = if j < k { j } else { j + 1 };
            assert(r[i] == s.entries[oi]);
            assert(r[j] == s.entries[oj]);
        }
        assert forall|i: int| 0 <= i < r.len() implies (#[trigger] r[i]).id.0 < s.next_id by {
            let oi = if i < k { i } else { i + 1 };
            assert(r[i] == s.entries[oi]);
        }
    }
}

/// Identifiers are never reissued: the node added after a removal gets an
/// identifier different from the removed one, and from every node present.
pub proof fn removed_ids_are_not_reissued<N>(s: SceneView<N>, id: NodeId, node: N)
    requires
        s.wf(),
        s.contains(id),
        s.next_id < u32::MAX,
    ensures
        NodeId(s.after_remove(id).next_id) != id,
        !s.after_remove(id).contains(NodeId(s.after_remove(id).next_id)),
        s.after_remove(id).after_add(node).entries.last().id != id,
{
    operations_preserve_wf(s, id, node);
    let r = s.after_remove(id);
    assert(r.entries.len() == 0 || r.entries.len() > 0);
    if r.contains(NodeId(r.next_id)) {
        let i = choose|i: int| 0 <= i < r.entries.len() && (#[trigger] r.entries[i]).id == NodeId(r.next_id);
        assert(r.entries[i].id.0 < r.next_id);
    }
}

/// Removing the node that was just added gives back the nodes of the scene
/// before the addition.
pub proof fn add_then_remove_restores<N>(s: SceneView<N>, node: N)
    requires
        s.wf(),
        s.next_id < u32::MAX,
    ensures
        s.after_add(node).after_remove(NodeId(s.next_id)).entries == s.entries,
{
    let a = s.after_add(node);
    let id = NodeId(s.next_id);
    let k = s.entries.len() as int;
    assert(a.entries[k].id == id);
    assert(a.contains(id));
    operations_preserve_wf(s, id, node);
    let j = a.index_of(id);
    if j != k {
        if j < k {
            assert(s.entries[j].id.0 < s.next_id);
        }
    }
    assert(a.entries.remove(k) =~= s.entries);
}

/// Adding several nodes appends them, in order, under consecutive fresh
/// identifiers.
pub proof fn add_all_appends<N>(s: SceneView<N>, nodes: Seq<N>)
    requires
        s.wf(),
        s.next_id + nodes.len() <= u32::MAX,
    ensures
        s.after_add_all(nodes).wf(),
        s.after_add_all(nodes).next_id == s.next_id + nodes.len(),
        s.after_add_all(nodes).entries.len() == s.entries.len() + nodes.len(),
        s.after_add_all(nodes).entries.subrange(0, s.entries.len() as int) == s.entries,
        forall|i: int|
            0 <= i < nodes.len() ==> #[trigger] s.after_add_all(nodes).entries[s.entries.len() + i] == (NodeEntry {
                id: NodeId((s.next_id + i) as u32),
                node: nodes[i],
                dirty: true,
                generation: 0,
            }),
        nodes.len() > 0 ==> s.after_add_all(nodes).dirty,
        nodes.len() == 0 ==> s.after_add_all(nodes) == s,
    decreases nodes.len(),
{
    if nodes.len() > 0 {
        let a = s.after_add(nodes[0]);
        operations_preserve_wf(s, NodeId(0), nodes[0]);
        add_all_appends(a, nodes.drop_first());
        let r = s.after_add_all(nodes);
        assert(r == a.after_add_all(nodes.drop_first()));
        assert(r.entries.subrange(0, s.entries.len() as int) =~= s.entries) by {
            assert(r.entries.subrange(0, a.entries.len() as int) == a.entries);
            assert forall|i: int| 0 <= i < s.entries.len() implies r.entries[i] == s.entries[i] by {
                assert(r.entries.subrange(0, a.entries.len() as int)[i] == a.entries[i]);
            }
        }
        assert forall|i: int| 0 <= i < nodes.len() implies #[trigger] r.entries[s.entries.len() + i] == (NodeEntry {
            id: NodeId((s.next_id + i) as u32),
            node: nodes[i],
            dirty: true,
            generation: 0,
        }) by {
            if i == 0 {
                assert(r.entries.subrange(0, a.entries.len() as int)[s.entries.len() as int] == a.entries[s.entries.len() as int]);
            } else {
                assert(r.entries[a.entries.len() + (i - 1)] == NodeEntry {
                    id: NodeId((a.next_id + (i - 1)) as u32),
                    node: nodes.drop_first()[i - 1],
                    dirty: true,
                    generation: 0,
                });
            }
        }
    }
}

/// A sequence of entries none of which is dirty has no dirty entries.
proof fn no_dirty_entries<N>(entries: Seq<NodeEntry<N>>)
    requires
        forall|i: int| 0 <= i < entries.len() ==> !(#[trigger] entries[i]).dirty,
    ensures
        dirty_of(entries).len() == 0,
    decreases entries.len(),
{
    if entries.len() > 0 {
        let prev = entries.drop_last();
        assert forall|i: int| 0 <= i < prev.len() implies !(#[trigger] prev[i]).dirty by {
            assert(prev[i] == entries[i]);
        }
        no_dirty_entries(prev);
        assert(!entries[entries.len() - 1].dirty);
    }
}

/// Dirty tracking: a scene whose flag is clear has no dirty node, so there
/// is nothing to re-render; adding a node, or updating or removing a present
/// one, sets the flag; updating or removing an absent one changes nothing.
pub proof fn dirty_tracking<N>(s: SceneView<N>, id: NodeId, node: N)
    requires
        s.wf(),
    ensures
        !s.dirty ==> s.dirty_entries().len() == 0,
        s.after_add(node).dirty,
        s.contains(id) ==> s.after_update(id, node).dirty && s.after_remove(id).dirty,
        !s.contains(id) ==> s.after_update(id, node) == s && s.after_remove(id) == s,
{
    if !s.dirty {
        no_dirty_entries(s.entries);
    }
}

/// Removing, in order, the identifiers of a suffix of nodes whose
/// identifiers are the largest in the scene leaves the prefix.
proof fn remove_suffix_ids<N>(s: SceneView<N>, keep: int, ids: Seq<NodeId>)
    requires
        s.wf(),
        0 <= keep <= s.entries.len(),
        ids.len() == s.entries.len() - keep,
        forall|i: int| 0 <= i < ids.len() ==> #[trigger] ids[i] == s.entries[keep + i].id,
    ensures
        s.after_remove_all(ids).entries == s.entries.subrange(0, keep),
    decreases ids.len(),
{
    if ids.len() == 0 {
        assert(s.entries.subrange(0, keep) =~= s.entries);
    } else {
        let id = ids[0];
        assert(s.entries[keep].id == id);
        assert(s.contains(id));
        let j = s.index_of(id);
        if j != keep {
            if j < keep {
                assert(s.entries[j].id.0 < s.entries[keep].id.0);
            } else {
                assert(s.entries[keep].id.0 < s.entries[j].id.0);
            }
        }
        let r = s.after_remove(id);
        operations_preserve_wf(s, id, s.entries[keep].node);
        assert forall|i: int| 0 <= i < ids.drop_first().len() implies #[trigger] ids.drop_first()[i] == r.entries[keep + i].id by {
            assert(ids.drop_first()[i] == ids[i + 1]);
            assert(r.entries[keep + i] == s.entries[keep + i + 1]);
        }
        remove_suffix_ids(r, keep, ids.drop_first());
        assert(r.entries.subrange(0, keep) =~= s.entries.subrange(0, keep));
    }
}

/// Removing the nodes just added, by the identifiers they were given, gives
/// back the nodes of the scene before the additions.
pub proof fn add_all_then_remove_all_restores<N>(s: SceneView<N>, nodes: Seq<N>)
    requires
        s.wf(),
        s.next_id + nodes.len() <= u32::MAX,
    ensures
        s.after_add_all(nodes).after_remove_all(fresh_ids(s.next_id, nodes.len())).entries == s.entries,
{
    add_all_appends(s, nodes);
    let a = s.after_add_all(nodes);
    let ids = fresh_ids(s.next_id, nodes.len());
    let keep = s.entries.len() as int;
    assert forall|i: int| 0 <= i < ids.len() implies #[trigger] ids[i] == a.entries[keep + i].id by {
        assert(a.entries[keep + i].id == NodeId((s.next_id + i) as u32));
    }
    remove_suffix_ids(a, keep, ids);
}

} // verus!

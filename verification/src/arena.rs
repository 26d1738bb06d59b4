//! The arena: a single owning store of tree nodes, addressed by dense,
//! append-only position handles, with bidirectional parent/child linking.

use vstd::prelude::*;
use vstd::std_specs::cmp::PartialEqSpec;

verus! {

/// An opaque, copyable handle naming one node's position inside one specific
/// [`Arena`]. A handle is meaningless against any other arena instance; no
/// cross-arena validation is performed, which is a documented caller
/// obligation.
#[derive(Clone, Copy, Debug, Eq)]
pub struct NodeId(usize);

impl View for NodeId {
    type V = int;

    /// A handle abstracts to the position it names.
    closed spec fn view(&self) -> int {
        self.0 as int
    }
}

impl NodeId {
    /// Returns the index value stored in this `NodeId` instance.
    pub fn index(&self) -> (i: usize)
        ensures
            i as int == self@,
    {
        self.0
    }
}

impl PartialEq for NodeId {
    fn eq(&self, other: &Self) -> (r: bool)
        ensures
            r == (self@ == other@),
    {
        self.0 == other.0
    }
}

impl vstd::std_specs::cmp::PartialEqSpecImpl for NodeId {
    open spec fn obeys_eq_spec() -> bool {
        true
    }

    open spec fn eq_spec(&self, other: &NodeId) -> bool {
        self@ == other@
    }
}

/// A handle is nothing but its position: two handles naming the same
/// position are the same handle.
pub broadcast proof fn lemma_node_id_injective(a: NodeId, b: NodeId)
    ensures
        #![trigger a@, b@]
        a@ == b@ ==> a == b,
{
}

/// The handle whose view is the given position.
pub closed spec fn spec_id_at(index: usize) -> NodeId {
    NodeId(index)
}

/// The handle at a position abstracts to exactly that position.
pub broadcast proof fn lemma_spec_id_at(index: usize)
    ensures
        (#[trigger] spec_id_at(index))@ == index as int,
{
}

impl From<usize> for NodeId {
    fn from(id: usize) -> (r: Self) {
        NodeId(id)
    }
}

impl vstd::std_specs::convert::FromSpecImpl<usize> for NodeId {
    open spec fn obeys_from_spec() -> bool {
        true
    }

    open spec fn from_spec(id: usize) -> NodeId {
        spec_id_at(id)
    }
}

/// The mathematical content of one tree vertex: its handle, its payload, and
/// the two directions of the parent/child relation.
pub struct NodeView<T> {
    pub id: NodeId,
    pub data: T,
    pub parent: Option<NodeId>,
    pub children: Seq<NodeId>,
}

/// One tree vertex: an identity, an owned payload, an optional parent handle,
/// and the ordered sequence of child handles.
#[derive(Clone, Debug, Eq)]
pub struct Node<T> {
    id: NodeId,
    data: T,
    parent: Option<NodeId>,
    children: Vec<NodeId>,
}

impl<T> View for Node<T> {
    type V = NodeView<T>;

    closed spec fn view(&self) -> NodeView<T> {
        NodeView { id: self.id, data: self.data, parent: self.parent, children: self.children@ }
    }
}

impl<T> Node<T> where T: PartialEq {
    /// Creates a new `Node` with the given `NodeId` index and data. The node
    /// starts with no parent and no children.
    pub fn new(id: NodeId, data: T) -> (n: Self)
        ensures
            n@ == (NodeView { id, data, parent: None, children: Seq::<NodeId>::empty() }),
    {
        let n = Self { id, data, parent: None, children: Vec::new() };
        proof {
            assert(n@.children =~= Seq::<NodeId>::empty());
        }
        n
    }

    /// Returns the `NodeId` identifier of the node.
    ///
    /// This value is used to uniquely identify a node in an `Arena`. It holds
    /// a `usize` that represents its position in the `Arena`.
    pub fn id(&self) -> (id: NodeId)
        ensures
            id == self@.id,
    {
        self.id
    }

    /// Returns a reference to the payload this node owns.
    pub fn data(&self) -> (d: &T)
        ensures
            d == self@.data,
    {
        &self.data
    }

    /// Returns the `NodeId` identifier of this node's parent.
    ///
    /// Because a `Node` does not need to have a parent, this function returns
    /// an `Option<NodeId>`.
    pub fn parent(&self) -> (p: Option<NodeId>)
        ensures
            p == self@.parent,
    {
        self.parent
    }

    /// Sets the parent of this node, overwriting any previous parent. No
    /// other field changes.
    pub fn set_parent(&mut self, new_parent: Option<NodeId>)
        ensures
            final(self)@ == (NodeView { parent: new_parent, ..old(self)@ }),
    {
        self.parent = new_parent
    }

    /// Returns the node's child handles, in the order they were linked.
    pub fn children(&self) -> (c: &Vec<NodeId>)
        ensures
            c@ == self@.children,
    {
        &self.children
    }

    /// Appends a child handle to this node's child list. Only the child list
    /// changes; the child node itself is not touched.
    pub fn add_child(&mut self, child: NodeId)
        ensures
            final(self)@ == (NodeView { children: old(self)@.children.push(child), ..old(self)@ }),
    {
        self.children.push(child)
    }
}

/// Structural agreement of two vertices: same handle, payloads the payload
/// type's own equality accepts, same parent link, same children in the same
/// order.
pub open spec fn node_data_eq<T: PartialEq>(a: NodeView<T>, b: NodeView<T>) -> bool {
    &&& a.id == b.id
    &&& a.data.eq_spec(&b.data)
    &&& a.parent == b.parent
    &&& a.children == b.children
}

impl<T: PartialEq> PartialEq for Node<T> {
    /// Structural comparison of two vertices, field by field.
    fn eq(&self, other: &Self) -> (r: bool) {
        let r = self.id == other.id && self.data == other.data && self.parent == other.parent
            && self.children == other.children;
        proof {
            if T::obeys_eq_spec() {
                assert(self.parent.eq_spec(&other.parent) == (self@.parent == other@.parent)) by {
                    if self.parent.eq_spec(&other.parent) {
                        match (self.parent, other.parent) {
                            (Some(x), Some(y)) => {
                                assert(x@ == y@);
                                assert(x == y);
                            },
                            _ => {},
                        }
                    }
                }
                if self.children.eq_spec(&other.children) {
                    assert(self.children@ =~= other.children@);
                }
            }
        }
        r
    }
}

impl<T: PartialEq> vstd::std_specs::cmp::PartialEqSpecImpl for Node<T> {
    open spec fn obeys_eq_spec() -> bool {
        T::obeys_eq_spec()
    }

    open spec fn eq_spec(&self, other: &Node<T>) -> bool {
        node_data_eq(self@, other@)
    }
}

/// Structural agreement of two arenas: the same number of nodes, agreeing
/// pairwise at every position. Changing any single child's order, parent
/// link, handle or payload falsifies it.
pub open spec fn arena_eq<T: PartialEq>(a: Seq<NodeView<T>>, b: Seq<NodeView<T>>) -> bool {
    &&& a.len() == b.len()
    &&& forall|i: int| 0 <= i < a.len() ==> node_data_eq(#[trigger] a[i], #[trigger] b[i])
}

/// An append-only store owning every node of one (or several disconnected)
/// trees. Nodes are exchanged by [`NodeId`] handles; a node's position never
/// changes and is never reused.
#[derive(Debug, Eq)]
pub struct Arena<T> where T: PartialEq {
    nodes: Vec<Node<T>>,
}

impl<T: PartialEq> View for Arena<T> {
    type V = Seq<NodeView<T>>;

    /// An arena abstracts to its nodes' views, in insertion order.
    closed spec fn view(&self) -> Seq<NodeView<T>> {
        self.nodes@.map_values(|n: Node<T>| n@)
    }
}

impl<T> Arena<T> where T: PartialEq {
    /// Every node sits at the position its handle names: handles are dense,
    /// starting at zero, and insertion order is position order.
    #[verifier::type_invariant]
    spec fn wf(self) -> bool {
        forall|i: int| 0 <= i < self@.len() ==> (#[trigger] self@[i]).id@ == i
    }

    /// Creates a new empty `Arena`.
    pub fn new() -> (a: Self)
        ensures
            a@ == Seq::<NodeView<T>>::empty(),
    {
        Self::default()
    }

    /// Returns a reference to the `Arena`'s nodes, in insertion order.
    pub fn nodes(&self) -> (r: &Vec<Node<T>>)
        ensures
            r@.len() == self@.len(),
            forall|i: int| 0 <= i < self@.len() ==> (#[trigger] r@[i])@ == self@[i],
            forall|i: int| 0 <= i < self@.len() ==> (#[trigger] self@[i]).id@ == i,
    {
        proof {
            use_type_invariant(&*self);
        }
        &self.nodes
    }

    /// Returns a reference to a `Node` at the given `NodeId` index.
    fn get(&self, id: NodeId) -> (n: &Node<T>)
        requires
            0 <= id@ < self@.len(),
        ensures
            n@ == self@[id@],
    {
        proof {
            use_type_invariant(&*self);
        }
        &self.nodes[id.0]
    }

    /// Returns the node at the given handle, or `None` when the handle is out
    /// of range for this arena. This is the bounds-checked read path.
    pub fn node_at(&self, id: NodeId) -> (n: Option<&Node<T>>)
        ensures
            0 <= id@ < self@.len() ==> (n matches Some(node) && node@ == self@[id@]),
            !(0 <= id@ < self@.len()) ==> n is None,
    {
        if id.index() < self.nodes.len() {
            Some(self.get(id))
        } else {
            None
        }
    }

    /// Inserts a new value into the arena and returns its `NodeId` index.
    ///
    /// New data will be appended to the end of the arena's internal vector:
    /// the handle's value equals the pre-insertion length, the new node has
    /// no parent and no children, and no existing node changes.
    pub fn insert(&mut self, data: T) -> (id: NodeId)
        ensures
            id@ == old(self)@.len(),
            final(self)@ == spec_insert(old(self)@, id, data),
    {
        proof {
            use_type_invariant(&*self);
        }
        let ghost prior = self@;
        let ghost d = data;
        let mut nodes: Vec<Node<T>> = Vec::new();
        std::mem::swap(&mut nodes, &mut self.nodes);
        let index = nodes.len();
        let id = NodeId(index);
        nodes.push(Node::new(id, data));
        proof {
            assert(nodes@.map_values(|n: Node<T>| n@) =~= spec_insert(prior, id, d));
        }
        std::mem::swap(&mut nodes, &mut self.nodes);
        id
    }
}

impl<T: PartialEq> PartialEq for Arena<T> {
    /// Structural comparison: equal node count and pairwise-equal nodes at
    /// every position.
    fn eq(&self, other: &Self) -> (r: bool) {
        let r = self.nodes == other.nodes;
        proof {
            if T::obeys_eq_spec() {
                assert(self.nodes.eq_spec(&other.nodes) == arena_eq(self@, other@)) by {
                    if self.nodes.eq_spec(&other.nodes) {
                        assert forall|i: int| 0 <= i < self@.len() implies node_data_eq(
                            #[trigger] self@[i],
                            #[trigger] other@[i],
                        ) by {
                            assert(self.nodes@[i].eq_spec(&other.nodes@[i]));
                        }
                    }
                    if arena_eq(self@, other@) {
                        assert forall|i: int|
                            0 <= i < self.nodes@.len() implies (#[trigger] self.nodes@[i]).eq_spec(
                            &other.nodes@[i],
                        ) by {
                            assert(node_data_eq(self@[i], other@[i]));
                        }
                    }
                }
            }
        }
        r
    }
}

impl<T: PartialEq> vstd::std_specs::cmp::PartialEqSpecImpl for Arena<T> {
    open spec fn obeys_eq_spec() -> bool {
        T::obeys_eq_spec()
    }

    open spec fn eq_spec(&self, other: &Arena<T>) -> bool {
        arena_eq(self@, other@)
    }
}

impl<T: PartialEq> Default for Arena<T> {
    fn default() -> (a: Self)
        ensures
            a@ == Seq::<NodeView<T>>::empty(),
    {
        let a = Self { nodes: Vec::new() };
        proof {
            assert(a@ =~= Seq::<NodeView<T>>::empty());
        }
        a
    }
}

/// The effect of [`Arena::insert`] on an arena's abstract node sequence: one
/// fresh root node, holding the payload, appended at the end.
pub open spec fn spec_insert<T>(nodes: Seq<NodeView<T>>, id: NodeId, data: T) -> Seq<NodeView<T>> {
    nodes.push(NodeView { id, data, parent: None, children: Seq::<NodeId>::empty() })
}

/// The effect of [`NodeId::set_parent`] on an arena's abstract node sequence:
/// one node's parent link is overwritten, nothing else moves.
pub open spec fn spec_set_parent<T>(
    nodes: Seq<NodeView<T>>,
    id: NodeId,
    new_parent: Option<NodeId>,
) -> Seq<NodeView<T>> {
    nodes.update(id@, NodeView { parent: new_parent, ..nodes[id@] })
}

/// The effect of [`NodeId::add_child`] on an arena's abstract node sequence:
/// the child's handle is appended to the parent's child list, then the
/// child's parent link is pointed at the parent.
pub open spec fn spec_add_child<T>(
    nodes: Seq<NodeView<T>>,
    parent: NodeId,
    child: NodeId,
) -> Seq<NodeView<T>> {
    let linked = nodes.update(
        parent@,
        NodeView { children: nodes[parent@].children.push(child), ..nodes[parent@] },
    );
    linked.update(child@, NodeView { parent: Some(parent), ..linked[child@] })
}

impl NodeId {
    /// Retrieves the parent of the `Node` with this `NodeId`.
    pub fn parent<T: PartialEq>(&self, arena: &Arena<T>) -> (p: Option<NodeId>)
        requires
            0 <= self@ < arena@.len(),
        ensures
            p == arena@[self@].parent,
    {
        arena.get(*self).parent()
    }

    /// Retrieves a reference to the children of the `Node` with this `NodeId`.
    pub fn children<'a, T: PartialEq>(&self, arena: &'a Arena<T>) -> (c: &'a Vec<NodeId>)
        requires
            0 <= self@ < arena@.len(),
        ensures
            c@ == arena@[self@].children,
    {
        arena.get(*self).children()
    }

    /// Sets a new parent for this `Node`, overwriting any previous one.
    ///
    /// No child relation is made here: the new parent's child list is left
    /// alone, so calling this directly can leave the two directions of the
    /// link out of agreement. Prefer [`NodeId::add_child`], which writes
    /// both. Returns a reference to itself to allow convenient chaining.
    pub fn set_parent<T: PartialEq>(
        &self,
        arena: &mut Arena<T>,
        new_parent: Option<NodeId>,
    ) -> (r: &Self)
        requires
            0 <= self@ < old(arena)@.len(),
        ensures
            r == self,
            final(arena)@ == spec_set_parent(old(arena)@, *self, new_parent),
            final(arena)@[self@].parent == new_parent,
            final(arena)@.len() == old(arena)@.len(),
            forall|i: int|
                0 <= i < old(arena)@.len() && i != self@ ==> #[trigger] final(arena)@[i]
                    == old(arena)@[i],
    {
        proof {
            use_type_invariant(&*arena);
        }
        let ghost prior = arena@;
        let mut nodes: Vec<Node<T>> = Vec::new();
        std::mem::swap(&mut nodes, &mut arena.nodes);
        let n = &mut nodes[self.0];
        n.set_parent(new_parent);
        proof {
            assert(nodes@.map_values(|n: Node<T>| n@) =~= spec_set_parent(
                prior,
                *self,
                new_parent,
            ));
        }
        std::mem::swap(&mut nodes, &mut arena.nodes);
        self
    }

    /// Adds a new child to this `Node`.
    ///
    /// This method will first add the child `NodeId` to this node's children
    /// list, before setting the new child's parent to this `Node`. Finally,
    /// it will return a reference to itself to allow convenient chaining of
    /// methods.
    ///
    /// If the child already had a parent, that old parent's child list still
    /// mentions the child afterwards; re-parenting is deliberately permissive
    /// and is a documented caller hazard.
    pub fn add_child<T: PartialEq>(&self, arena: &mut Arena<T>, child: NodeId) -> (r: &Self)
        requires
            0 <= self@ < old(arena)@.len(),
            0 <= child@ < old(arena)@.len(),
        ensures
            r == self,
            final(arena)@ == spec_add_child(old(arena)@, *self, child),
            final(arena)@[self@].children == old(arena)@[self@].children.push(child),
            final(arena)@[child@].parent == Some(*self),
            final(arena)@.len() == old(arena)@.len(),
            forall|i: int|
                0 <= i < old(arena)@.len() && i != self@ && i != child@
                    ==> #[trigger] final(arena)@[i] == old(arena)@[i],
            forall|i: int|
                0 <= i < old(arena)@.len() ==> (#[trigger] final(arena)@[i]).id == old(
                    arena,
                )@[i].id && final(arena)@[i].data == old(arena)@[i].data,
    {
        proof {
            use_type_invariant(&*arena);
        }
        let ghost prior = arena@;
        let mut nodes: Vec<Node<T>> = Vec::new();
        std::mem::swap(&mut nodes, &mut arena.nodes);
        let p = &mut nodes[self.0];
        p.add_child(child);
        let c = &mut nodes[child.0];
        c.set_parent(Some(*self));
        proof {
            assert(nodes@.map_values(|n: Node<T>| n@) =~= spec_add_child(prior, *self, child));
        }
        std::mem::swap(&mut nodes, &mut arena.nodes);
        self
    }
}

/// Immediately after linking, the two directions of the relation agree: the
/// parent's child list ends with the child, and the child's parent handle
/// names the parent.
pub proof fn lemma_link_bidirectional<T>(nodes: Seq<NodeView<T>>, parent: NodeId, child: NodeId)
    requires
        0 <= parent@ < nodes.len(),
        0 <= child@ < nodes.len(),
    ensures
        spec_add_child(nodes, parent, child)[parent@].children.last() == child,
        spec_add_child(nodes, parent, child)[parent@].children == nodes[parent@].children.push(
            child,
        ),
        spec_add_child(nodes, parent, child)[child@].parent == Some(parent),
{
}

/// Children attach in call order: linking three children one after another
/// appends their handles in exactly that order, wherever in the arena the
/// children themselves were inserted.
pub proof fn lemma_child_order<T>(
    nodes: Seq<NodeView<T>>,
    parent: NodeId,
    c1: NodeId,
    c2: NodeId,
    c3: NodeId,
)
    requires
        0 <= parent@ < nodes.len(),
        0 <= c1@ < nodes.len(),
        0 <= c2@ < nodes.len(),
        0 <= c3@ < nodes.len(),
    ensures
        ({
            let after = spec_add_child(
                spec_add_child(spec_add_child(nodes, parent, c1), parent, c2),
                parent,
                c3,
            );
            after[parent@].children == nodes[parent@].children + seq![c1, c2, c3]
        }),
{
    let after = spec_add_child(
        spec_add_child(spec_add_child(nodes, parent, c1), parent, c2),
        parent,
        c3,
    );
    assert(after[parent@].children =~= nodes[parent@].children + seq![c1, c2, c3]);
}

/// Linking rewrites no identity and no payload, in any node: only parent
/// links and child lists ever change after insertion.
pub proof fn lemma_link_preserves_payloads<T>(
    nodes: Seq<NodeView<T>>,
    parent: NodeId,
    child: NodeId,
)
    requires
        0 <= parent@ < nodes.len(),
        0 <= child@ < nodes.len(),
    ensures
        spec_add_child(nodes, parent, child).len() == nodes.len(),
        forall|i: int|
            0 <= i < nodes.len() ==> (#[trigger] spec_add_child(nodes, parent, child)[i]).id
                == nodes[i].id && spec_add_child(nodes, parent, child)[i].data == nodes[i].data,
{
}

/// Every insertion makes a root and nothing else: the fresh node carries the
/// payload with no parent and no children, and every node already present is
/// left exactly as it was. The arena never invents a synthetic root.
pub proof fn lemma_insert_fresh_root<T>(nodes: Seq<NodeView<T>>, id: NodeId, data: T)
    ensures
        spec_insert(nodes, id, data).len() == nodes.len() + 1,
        spec_insert(nodes, id, data)[nodes.len() as int] == (NodeView {
            id,
            data,
            parent: None,
            children: Seq::<NodeId>::empty(),
        }),
        forall|i: int| 0 <= i < nodes.len() ==> #[trigger] spec_insert(nodes, id, data)[i]
            == nodes[i],
{
}

} // verus!

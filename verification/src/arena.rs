use crate::ptr::{ListNodePtr, SENTINEL_BASE};
use vstd::prelude::*;

verus! {

/// One slot of an arena: a value and the pointer to the rest of its chain.
/// A node is owned by the arena that appended it and is never moved or
/// overwritten afterwards, so its position names it for the arena's
/// lifetime. Nodes enter an arena only through [`crate::List::push_front`].
pub struct Node<T> {
    pub head: T,
    pub tail: ListNodePtr<T>,
}

impl<T> Node<T> {
    /// Well-formed for position `i`: the tail denotes no node, or a node
    /// appended earlier. Appending only such nodes keeps every chain finite.
    pub open spec fn wf_at(self, i: int) -> bool {
        self.tail.wf() && (self.tail.spec_is_invalid() || self.tail.idx() < i)
    }
}

/// Every node points only at earlier positions, so a walk along tails
/// strictly descends and ends.
pub open spec fn nodes_wf<T>(nodes: Seq<Node<T>>) -> bool {
    forall|i: int| 0 <= i < nodes.len() ==> (#[trigger] nodes[i]).wf_at(i)
}

/// A pointer the library may hold against this arena content: one it built,
/// and in bounds unless it denotes no node.
pub open spec fn ptr_in<T>(ptr: ListNodePtr<T>, nodes: Seq<Node<T>>) -> bool {
    ptr.wf() && (ptr.spec_is_invalid() || ptr.idx() < nodes.len())
}

/// The values reachable from `ptr` along tails, head value first.
pub open spec fn chain<T>(nodes: Seq<Node<T>>, ptr: ListNodePtr<T>) -> Seq<T>
    decreases ptr.rank(),
        when nodes_wf(nodes) && ptr_in(ptr, nodes)
{
    if ptr.spec_is_invalid() {
        Seq::empty()
    } else {
        seq![nodes[ptr.idx()].head] + chain(nodes, nodes[ptr.idx()].tail)
    }
}

/// Appending a well-formed node keeps the whole content well-formed.
proof fn lemma_nodes_wf_push<T>(nodes: Seq<Node<T>>, n: Node<T>)
    requires
        nodes_wf(nodes),
        n.wf_at(nodes.len() as int),
    ensures
        nodes_wf(nodes.push(n)),
{
    let grown = nodes.push(n);
    assert forall|i: int| 0 <= i < grown.len() implies (#[trigger] grown[i]).wf_at(i) by {
        if i < nodes.len() {
            assert(grown[i] == nodes[i]);
        } else {
            assert(grown[i] == n);
        }
    }
}

/// Appending a node leaves every chain already in the arena unchanged: the
/// ground of structural sharing between handles.
pub proof fn lemma_chain_push<T>(nodes: Seq<Node<T>>, n: Node<T>, ptr: ListNodePtr<T>)
    requires
        nodes_wf(nodes),
        ptr_in(ptr, nodes),
        n.wf_at(nodes.len() as int),
    ensures
        ptr_in(ptr, nodes.push(n)),
        chain(nodes.push(n), ptr) == chain(nodes, ptr),
    decreases ptr.rank(),
{
    lemma_nodes_wf_push(nodes, n);
    if ptr.spec_is_invalid() {
        assert(chain(nodes.push(n), ptr) =~= chain(nodes, ptr));
    } else {
        let i = ptr.idx();
        assert(nodes.push(n)[i] == nodes[i]);
        assert(nodes[i].wf_at(i));
        lemma_chain_push(nodes, n, nodes[i].tail);
        assert(chain(nodes.push(n), ptr) =~= chain(nodes, ptr));
    }
}

/// A chain is empty exactly when its pointer denotes no node.
pub proof fn lemma_chain_empty_iff<T>(nodes: Seq<Node<T>>, ptr: ListNodePtr<T>)
    requires
        nodes_wf(nodes),
        ptr_in(ptr, nodes),
    ensures
        chain(nodes, ptr).len() == 0 <==> ptr.spec_is_invalid(),
{
    if !ptr.spec_is_invalid() {
        assert(chain(nodes, ptr).len() >= 1);
    }
}

/// An append-only pool owning the nodes of any number of lists. Slots are
/// never removed, overwritten or relocated, so an issued pointer stays valid
/// for the arena's lifetime. The view is the sequence of appended nodes.
pub struct Arena<T> {
    values: Vec<Node<T>>,
}

impl<T> View for Arena<T> {
    type V = Seq<Node<T>>;

    closed spec fn view(&self) -> Seq<Node<T>> {
        self.values@
    }
}

impl<T> Arena<T> {
    /// The arena's invariant: nodes point backwards, and the pool holds
    /// fewer nodes than the reserved sentinel band leaves room for.
    pub open spec fn wf(&self) -> bool {
        nodes_wf(self@) && self@.len() < SENTINEL_BASE
    }

    /// Appends a node and returns the pointer encoding its position. The
    /// caller leaves room below the reserved band; past that bound there is
    /// no recovery at this layer. Every pointer issued before keeps its
    /// chain.
    pub(crate) fn add(&mut self, t: Node<T>) -> (r: ListNodePtr<T>)
        requires
            old(self).wf(),
            old(self)@.len() + 1 < SENTINEL_BASE,
            t.wf_at(old(self)@.len() as int),
        ensures
            final(self).wf(),
            final(self)@ == old(self)@.push(t),
            r.wf(),
            !r.spec_is_invalid(),
            r.idx() == old(self)@.len(),
            ptr_in(r, final(self)@),
            forall|p: ListNodePtr<T>| #[trigger] ptr_in(p, old(self)@)
                ==> ptr_in(p, final(self)@) && chain(final(self)@, p) == chain(old(self)@, p),
    {
        self.values.push(t);
        proof {
            lemma_nodes_wf_push(old(self)@, t);
            assert forall|p: ListNodePtr<T>| ptr_in(p, old(self)@)
                implies ptr_in(p, self@) && chain(self@, p) == chain(old(self)@, p) by {
                lemma_chain_push(old(self)@, t, p);
            }
        }
        let len: usize = self.values.len();
        ListNodePtr::new(len as u32)
    }

    /// Resolves a pointer it issued to the node at that position.
    pub(crate) fn data(&self, ptr: ListNodePtr<T>) -> (r: &Node<T>)
        requires
            self.wf(),
            ptr_in(ptr, self@),
            !ptr.spec_is_invalid(),
        ensures
            *r == self@[ptr.idx()],
    {
        &self.values[ptr.as_usize()]
    }
}

impl<T> Default for Arena<T> {
    /// An arena holding no nodes.
    fn default() -> (r: Self)
        ensures
            r.wf(),
            r@ == Seq::<Node<T>>::empty(),
    {
        Arena { values: Vec::new() }
    }
}

} // verus!

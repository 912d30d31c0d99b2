use crate::arena::{chain, lemma_chain_empty_iff, nodes_wf, ptr_in, Arena, Node};
use crate::ptr::{ListNodePtr, SENTINEL_BASE};
use vstd::prelude::*;

verus! {

/// A copyable cursor: the head of a singly linked chain of nodes resident in
/// some arena, or the empty list. Copying a handle copies only its 32-bit
/// pointer; the chain stays shared and owned by the arena. A handle is only
/// ever paired with the arena its nodes were pushed into.
pub struct List<T> {
    node: ListNodePtr<T>,
}

impl<T> List<T> {
    /// The handle's pointer.
    pub closed spec fn ptr(self) -> ListNodePtr<T> {
        self.node
    }

    /// True of a handle denoting no node.
    pub open spec fn spec_is_empty(self) -> bool {
        self.ptr().spec_is_invalid()
    }

    /// A handle the library built against this arena: its pointer denotes no
    /// node, or a node the arena holds.
    pub open spec fn valid_for(self, arena: Arena<T>) -> bool {
        ptr_in(self.ptr(), arena@)
    }

    /// The values this handle denotes in `arena`, head first.
    pub open spec fn elems(self, arena: Arena<T>) -> Seq<T> {
        chain(arena@, self.ptr())
    }

    /// True iff the list is empty. The arena is not consulted.
    pub fn is_empty(&self) -> (r: bool)
        ensures
            r == self.spec_is_empty(),
    {
        self.node.is_invalid()
    }

    /// The head value, or absent when the list is empty. Nothing changes;
    /// the returned borrow lives as long as the arena's.
    pub fn peek<'a>(&self, arena: &'a Arena<T>) -> (r: Option<&'a T>)
        requires
            arena.wf(),
            self.valid_for(*arena),
        ensures
            r.is_some() <==> self.elems(*arena).len() != 0,
            r.is_some() ==> r.unwrap() == self.elems(*arena)[0],
    {
        if self.node.is_invalid() {
            None
        } else {
            Some(&arena.data(self.node).head)
        }
    }

    /// Appends one node holding `head` to the arena and repoints this handle
    /// at it: the one way nodes are created. The handle then denotes `head`
    /// in front of what it denoted before, and every handle valid for the
    /// arena before keeps the values it denoted (structural sharing). The
    /// arena must have room below the reserved sentinel band.
    pub fn push_front(&mut self, arena: &mut Arena<T>, head: T)
        requires
            old(arena).wf(),
            old(self).valid_for(*old(arena)),
            old(arena)@.len() + 1 < SENTINEL_BASE,
        ensures
            final(arena).wf(),
            final(arena)@ == old(arena)@.push((Node { head, tail: old(self).ptr() })),
            final(self).valid_for(*final(arena)),
            !final(self).spec_is_empty(),
            final(self).elems(*final(arena)) == seq![head] + old(self).elems(*old(arena)),
            forall|l: List<T>| #[trigger] l.valid_for(*old(arena))
                ==> l.valid_for(*final(arena)) && l.elems(*final(arena)) == l.elems(*old(arena)),
    {
        let tail = self.node;
        self.node = arena.add(Node { head, tail });
        proof {
            assert(self.elems(*arena) =~= seq![head] + old(self).elems(*old(arena)));
        }
    }

    /// Removes the head: advances this handle to the popped node's tail and
    /// returns a borrow of the popped value, or absent — with the handle
    /// unchanged — when the list is already empty. The node itself stays in
    /// the arena, so handles that still point at it are unaffected.
    pub fn pop_front<'a>(&mut self, arena: &'a Arena<T>) -> (r: Option<&'a T>)
        requires
            arena.wf(),
            old(self).valid_for(*arena),
        ensures
            final(self).valid_for(*arena),
            r.is_some() <==> old(self).elems(*arena).len() != 0,
            r.is_some() ==> r.unwrap() == old(self).elems(*arena)[0]
                && final(self).elems(*arena) == old(self).elems(*arena).drop_first(),
            r.is_none() ==> *final(self) == *old(self),
    {
        if self.is_empty() {
            return None;
        }

        let node = arena.data(self.node);
        self.node = node.tail;
        proof {
            assert(self.elems(*arena) =~= old(self).elems(*arena).drop_first());
        }
        Some(&node.head)
    }

    /// Every remaining value, head to tail, gathered by popping a copy of
    /// the handle until it is empty. The handle is taken by value; a saved
    /// copy restarts the walk. The arena is not changed.
    pub fn iter<'a>(self, arena: &'a Arena<T>) -> (r: Vec<&'a T>)
        requires
            arena.wf(),
            self.valid_for(*arena),
        ensures
            r@.len() == self.elems(*arena).len(),
            forall|i: int| 0 <= i < r@.len() ==> r@[i] == self.elems(*arena)[i],
    {
        let ghost all = self.elems(*arena);
        let mut cur = self;
        let mut out: Vec<&'a T> = Vec::new();
        while !cur.is_empty()
            invariant
                arena.wf(),
                cur.valid_for(*arena),
                out@.len() <= all.len(),
                cur.elems(*arena) == all.subrange(out@.len() as int, all.len() as int),
                forall|i: int| 0 <= i < out@.len() ==> out@[i] == all[i],
            decreases cur.elems(*arena).len(),
        {
            proof {
                lemma_chain_empty_iff(arena@, cur.ptr());
            }
            if let Some(v) = cur.pop_front(arena) {
                out.push(v);
                proof {
                    assert(cur.elems(*arena) =~= all.subrange(
                        out@.len() as int,
                        all.len() as int,
                    ));
                }
            }
        }
        proof {
            lemma_chain_empty_iff(arena@, cur.ptr());
            assert(out@.len() == all.len());
        }
        out
    }
}

impl<T> Clone for List<T> {
    /// Duplicates only the handle; the copy denotes the same values and
    /// shares every node with the original.
    fn clone(&self) -> (r: Self)
        ensures
            r == *self,
    {
        List { node: self.node }
    }
}

impl<T> Copy for List<T> {}

impl<T> Default for List<T> {
    /// The empty list: the "no node" pointer, valid for every arena.
    fn default() -> (r: Self)
        ensures
            r.spec_is_empty(),
            r.ptr().wf(),
    {
        List { node: ListNodePtr::invalid() }
    }
}

/// Law: a handle is empty exactly when it denotes no values in an arena it
/// is valid for; in particular popping an empty handle finds nothing and,
/// by `pop_front`'s contract, leaves the handle empty.
pub proof fn lemma_is_empty_iff_no_elems<T>(l: List<T>, arena: Arena<T>)
    requires
        arena.wf(),
        l.valid_for(arena),
    ensures
        l.spec_is_empty() <==> l.elems(arena).len() == 0,
{
    lemma_chain_empty_iff(arena@, l.ptr());
}

/// The values a handle denotes after the values of `vs` are pushed in order
/// onto an empty handle: each push puts its value in front, as
/// `push_front`'s contract states of each call.
pub open spec fn after_pushes<T>(vs: Seq<T>) -> Seq<T>
    decreases vs.len(),
{
    if vs.len() == 0 {
        Seq::empty()
    } else {
        seq![vs.last()] + after_pushes(vs.drop_last())
    }
}

/// Law: one more push puts its value in front of what the pushes before it
/// left denoted.
pub proof fn lemma_after_pushes_step<T>(vs: Seq<T>, v: T)
    ensures
        after_pushes(vs.push(v)) == seq![v] + after_pushes(vs),
{
    assert(vs.push(v).drop_last() =~= vs);
    assert(after_pushes(vs.push(v)) =~= seq![v] + after_pushes(vs));
}

/// Law: pushing v1, ..., vn in order onto an empty handle leaves them
/// denoted in reverse push order vn, ..., v1 — so a peek after the pushes
/// returns the value pushed last, a full traversal yields the reverse of
/// the push order, and n pops return the values pushed, last first.
pub proof fn lemma_pushes_reverse<T>(vs: Seq<T>)
    ensures
        after_pushes(vs) == vs.reverse(),
    decreases vs.len(),
{
    if vs.len() == 0 {
        assert(after_pushes(vs) =~= vs.reverse());
    } else {
        lemma_pushes_reverse(vs.drop_last());
        assert(after_pushes(vs) =~= vs.reverse());
    }
}

} // verus!

use vstd::prelude::*;
use crate::ast::{check_kind_children, kind_children_ok, AstKind, AstNode, NodeId};
use crate::span::Span;

verus! {

/// Owns all nodes of one analyzed file, plus a side index mapping each node
/// to its parent. Both are immutable once built: the only way to obtain an
/// `Arena` is through [`ArenaBuilder::finish`], which validates the tree
/// shape, and nothing mutates one afterwards.
pub struct Arena {
    nodes: Vec<AstNode>,
    parents: Vec<Option<NodeId>>,
}

/// Well-formedness of an arena's raw content:
/// - node ids are dense and match their index;
/// - the parent index covers every node;
/// - node 0 is the single root and the only node without a parent;
/// - every parent was created before its children (pre-order), so parent ids
///   strictly decrease along any ancestor walk;
/// - every child reference held inside a variant points strictly forward.
pub open spec fn arena_content_ok(nodes: Seq<AstNode>, parents: Seq<Option<NodeId>>) -> bool {
    &&& nodes.len() >= 1
    &&& parents.len() == nodes.len()
    &&& forall|i: int| 0 <= i < nodes.len() ==> (#[trigger] nodes[i].id) == i
    &&& parents[0] is None
    &&& forall|i: int|
        1 <= i < nodes.len() ==> ((#[trigger] parents[i]) matches Some(p) && p < i)
    &&& forall|i: int|
        0 <= i < nodes.len() ==> kind_children_ok(#[trigger] nodes[i].kind, i, nodes.len() as int)
}

impl Arena {
    pub closed spec fn spec_nodes(self) -> Seq<AstNode> {
        self.nodes@
    }

    pub closed spec fn spec_parents(self) -> Seq<Option<NodeId>> {
        self.parents@
    }

    pub open spec fn spec_len(self) -> nat {
        self.spec_nodes().len()
    }

    pub open spec fn wf(self) -> bool {
        arena_content_ok(self.spec_nodes(), self.spec_parents())
    }

    /// The variant of node `i`.
    pub open spec fn spec_kind(self, i: int) -> AstKind {
        self.spec_nodes()[i].kind
    }

    /// The span of node `i`.
    pub open spec fn spec_span(self, i: int) -> Span {
        self.spec_nodes()[i].span
    }

    /// The parent of node `i`, `None` only for the root.
    pub open spec fn spec_parent(self, i: int) -> Option<NodeId> {
        self.spec_parents()[i]
    }

    pub fn len(&self) -> (n: usize)
        ensures
            n == self.spec_len(),
    {
        self.nodes.len()
    }

    /// Node lookup; ids are only produced by this component, so a valid id is
    /// a precondition rather than a runtime failure.
    pub fn get(&self, id: NodeId) -> (node: &AstNode)
        requires
            id < self.spec_len(),
        ensures
            *node == self.spec_nodes()[id as int],
    {
        &self.nodes[id]
    }

    /// Fallible node lookup: fails only when the id does not belong to this
    /// arena, which callers holding ids produced by this component never
    /// observe.
    pub fn try_get(&self, id: NodeId) -> (node: Option<&AstNode>)
        ensures
            match node {
                Some(n) => id < self.spec_len() && *n == self.spec_nodes()[id as int],
                None => id >= self.spec_len(),
            },
    {
        if id < self.nodes.len() {
            Some(&self.nodes[id])
        } else {
            None
        }
    }

    pub fn kind(&self, id: NodeId) -> (k: &AstKind)
        requires
            id < self.spec_len(),
        ensures
            *k == self.spec_kind(id as int),
    {
        &self.nodes[id].kind
    }

    pub fn span(&self, id: NodeId) -> (s: Span)
        requires
            id < self.spec_len(),
        ensures
            s == self.spec_span(id as int),
    {
        self.nodes[id].span
    }

    /// O(1) parent lookup. In a well-formed arena the result is `Some`
    /// exactly for non-root nodes, and a parent id is always smaller than its
    /// child's: ancestor walks strictly descend through ids.
    pub fn parent(&self, id: NodeId) -> (p: Option<NodeId>)
        requires
            self.wf(),
            id < self.spec_len(),
        ensures
            p == self.spec_parent(id as int),
            p is Some <==> id != 0,
            p matches Some(q) ==> q < id,
    {
        self.parents[id]
    }
}

/// Every node except the declared root has a parent, and the root has none.
pub proof fn lemma_parent_total(a: Arena, i: int)
    requires
        a.wf(),
        0 <= i < a.spec_len(),
    ensures
        a.spec_parent(i) is Some <==> i != 0,
        a.spec_parent(i) matches Some(p) ==> 0 <= p < i,
{
}

/// Builds an arena in one pre-order pass: `begin` creates a node under the
/// currently open node and opens it, `end` closes it again. `finish`
/// validates the recorded content and hands out the immutable arena.
pub struct ArenaBuilder {
    nodes: Vec<AstNode>,
    parents: Vec<Option<NodeId>>,
    open_nodes: Vec<NodeId>,
}

impl ArenaBuilder {
    pub closed spec fn spec_nodes(self) -> Seq<AstNode> {
        self.nodes@
    }

    pub closed spec fn spec_parents(self) -> Seq<Option<NodeId>> {
        self.parents@
    }

    /// Ids of the nodes begun and not yet ended, outermost first.
    pub closed spec fn spec_open(self) -> Seq<NodeId> {
        self.open_nodes@
    }

    /// Internal consistency of the builder itself.
    pub closed spec fn wf(self) -> bool {
        &&& self.parents@.len() == self.nodes@.len()
        &&& forall|i: int| 0 <= i < self.nodes@.len() ==> (#[trigger] self.nodes@[i].id) == i
        &&& forall|i: int|
            0 <= i < self.parents@.len() ==> ((#[trigger] self.parents@[i]) matches Some(p)
                ==> p < i)
        &&& forall|i: int|
            0 <= i < self.open_nodes@.len() ==> (#[trigger] self.open_nodes@[i])
                < self.nodes@.len()
    }

    pub fn new() -> (b: ArenaBuilder)
        ensures
            b.wf(),
            b.spec_nodes().len() == 0,
            b.spec_parents().len() == 0,
            b.spec_open().len() == 0,
    {
        ArenaBuilder { nodes: Vec::new(), parents: Vec::new(), open_nodes: Vec::new() }
    }

    /// Creates the next node, with the currently open node as its parent, and
    /// opens it so that nodes created before the matching `end` become its
    /// descendants.
    pub fn begin(&mut self, kind: AstKind, span: Span) -> (id: NodeId)
        requires
            old(self).wf(),
            old(self).spec_nodes().len() < usize::MAX,
        ensures
            final(self).wf(),
            id == old(self).spec_nodes().len(),
            final(self).spec_nodes() == old(self).spec_nodes().push(AstNode { id, span, kind }),
            final(self).spec_parents() == old(self).spec_parents().push(
                if old(self).spec_open().len() > 0 {
                    Some(old(self).spec_open().last())
                } else {
                    None
                },
            ),
            final(self).spec_open() == old(self).spec_open().push(id),
    {
        let id = self.nodes.len();
        let parent: Option<NodeId> = if self.open_nodes.len() > 0 {
            Some(self.open_nodes[self.open_nodes.len() - 1])
        } else {
            None
        };
        self.nodes.push(AstNode { id, span, kind });
        self.parents.push(parent);
        self.open_nodes.push(id);
        id
    }

    /// Closes the most recently opened node. Closing with nothing open is a
    /// no-op.
    pub fn end(&mut self)
        requires
            old(self).wf(),
        ensures
            final(self).wf(),
            final(self).spec_nodes() == old(self).spec_nodes(),
            final(self).spec_parents() == old(self).spec_parents(),
            final(self).spec_open() == if old(self).spec_open().len() > 0 {
                old(self).spec_open().drop_last()
            } else {
                old(self).spec_open()
            },
    {
        if self.open_nodes.len() > 0 {
            let _ = self.open_nodes.pop();
        }
    }

    /// `begin` immediately followed by `end`: a node with no children.
    pub fn leaf(&mut self, kind: AstKind, span: Span) -> (id: NodeId)
        requires
            old(self).wf(),
            old(self).spec_nodes().len() < usize::MAX,
        ensures
            final(self).wf(),
            id == old(self).spec_nodes().len(),
            final(self).spec_nodes() == old(self).spec_nodes().push(AstNode { id, span, kind }),
            final(self).spec_parents() == old(self).spec_parents().push(
                if old(self).spec_open().len() > 0 {
                    Some(old(self).spec_open().last())
                } else {
                    None
                },
            ),
            final(self).spec_open() == old(self).spec_open(),
    {
        let id = self.begin(kind, span);
        self.end();
        proof {
            assert(self.spec_open() =~= old(self).spec_open());
        }
        id
    }

    /// Validates the recorded content and returns the finished arena, or
    /// `None` when an invariant of the build was broken (no nodes, a missing
    /// parent on a non-root node, or a child reference that does not point
    /// strictly forward). A broken build is fatal to this one file's
    /// analysis, never to the process.
    pub fn finish(self) -> (r: Option<Arena>)
        ensures
            match r {
                Some(a) => {
                    &&& a.wf()
                    &&& a.spec_nodes() == self.spec_nodes()
                    &&& a.spec_parents() == self.spec_parents()
                },
                None => !arena_content_ok(self.spec_nodes(), self.spec_parents()),
            },
    {
        let n = self.nodes.len();
        if n == 0 || self.parents.len() != n {
            return None;
        }
        if self.parents[0].is_some() {
            return None;
        }
        let mut i: usize = 1;
        while i < n
            invariant
                1 <= i <= n,
                n == self.nodes@.len(),
                n == self.parents@.len(),
                forall|q: int|
                    1 <= q < i ==> ((#[trigger] self.parents@[q]) matches Some(p) && p < q),
            decreases n - i,
        {
            match self.parents[i] {
                Some(p) => {
                    if p >= i {
                        return None;
                    }
                },
                None => {
                    return None;
                },
            }
            i += 1;
        }
        let mut i: usize = 0;
        while i < n
            invariant
                0 <= i <= n,
                n == self.nodes@.len(),
                forall|q: int| 0 <= q < i ==> (#[trigger] self.nodes@[q].id) == q,
                forall|q: int|
                    0 <= q < i ==> kind_children_ok(#[trigger] self.nodes@[q].kind, q, n as int),
            decreases n - i,
        {
            if self.nodes[i].id != i {
                return None;
            }
            if !check_kind_children(&self.nodes[i].kind, i, n) {
                return None;
            }
            i += 1;
        }
        Some(Arena { nodes: self.nodes, parents: self.parents })
    }
}

} // verus!

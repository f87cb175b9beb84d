use vstd::prelude::*;
use crate::arena::Arena;
use crate::ast::NodeId;

verus! {

/// The ids on the way from `cur` (inclusive) up to the root, following the
/// parent index.
pub open spec fn spec_chain_from(a: Arena, cur: Option<NodeId>) -> Seq<NodeId>
    decreases (match cur {
        Some(c) => c as int + 1,
        None => 0int,
    })
        when a.wf() && (cur matches Some(c) ==> c < a.spec_len())
{
    match cur {
        None => Seq::empty(),
        Some(c) => seq![c].add(spec_chain_from(a, a.spec_parent(c as int))),
    }
}

/// The ancestor ids of node `i`, nearest first, excluding `i` itself.
pub open spec fn spec_ancestor_chain(a: Arena, i: int) -> Seq<NodeId> {
    spec_chain_from(a, a.spec_parent(i))
}

/// Ancestor chains strictly descend through ids: every entry is in bounds,
/// later entries are strictly smaller than earlier ones (so no id is ever
/// revisited), and the chain is no longer than the starting id's own
/// magnitude — the walk terminates within the tree's nesting depth.
pub proof fn lemma_chain_strictly_descends(a: Arena, cur: Option<NodeId>)
    requires
        a.wf(),
        cur matches Some(c) ==> c < a.spec_len(),
    ensures
        forall|k: int|
            0 <= k < spec_chain_from(a, cur).len() ==> (#[trigger] spec_chain_from(a, cur)[k])
                < a.spec_len(),
        forall|k1: int, k2: int|
            0 <= k1 < k2 < spec_chain_from(a, cur).len() ==> #[trigger] spec_chain_from(a, cur)[k1]
                > #[trigger] spec_chain_from(a, cur)[k2],
        spec_chain_from(a, cur).len() <= (match cur {
            Some(c) => c as int + 1,
            None => 0int,
        }),
    decreases (match cur {
        Some(c) => c as int + 1,
        None => 0int,
    }),
{
    match cur {
        None => {},
        Some(c) => {
            let rest = a.spec_parent(c as int);
            lemma_chain_strictly_descends(a, rest);
            let chain = spec_chain_from(a, cur);
            let tail = spec_chain_from(a, rest);
            assert(chain == seq![c].add(tail));
            assert forall|k: int| 0 <= k < tail.len() implies tail[k] < c by {
                match rest {
                    None => {},
                    Some(p) => {
                        assert(tail[0] == p);
                        assert(p < c);
                        if k > 0 {
                            assert(tail[0] > tail[k]);
                        }
                    },
                }
            }
            assert forall|k1: int, k2: int|
                0 <= k1 < k2 < chain.len() implies chain[k1] > chain[k2] by {
                if k1 == 0 {
                    assert(chain[k2] == tail[k2 - 1]);
                } else {
                    assert(chain[k1] == tail[k1 - 1]);
                    assert(chain[k2] == tail[k2 - 1]);
                }
            }
        },
    }
}

/// Lazy, forward-only traversal from a node up to the root, excluding the
/// node itself. Draining it yields exactly [`spec_ancestor_chain`]; it is not
/// restartable.
pub struct AncestorWalker {
    cur: Option<NodeId>,
}

impl AncestorWalker {
    /// The next id the walker will yield, if any.
    pub closed spec fn spec_cur(self) -> Option<NodeId> {
        self.cur
    }

    /// The walker's position refers into `a`.
    pub open spec fn valid(self, a: Arena) -> bool {
        self.spec_cur() matches Some(c) ==> c < a.spec_len()
    }

    /// What remains to be yielded.
    pub open spec fn spec_remaining(self, a: Arena) -> Seq<NodeId> {
        spec_chain_from(a, self.spec_cur())
    }

    pub fn new(a: &Arena, start: NodeId) -> (w: AncestorWalker)
        requires
            a.wf(),
            start < a.spec_len(),
        ensures
            w.valid(*a),
            w.spec_cur() == a.spec_parent(start as int),
            w.spec_remaining(*a) == spec_ancestor_chain(*a, start as int),
    {
        AncestorWalker { cur: a.parent(start) }
    }

    /// Yields the next ancestor, moving one step toward the root.
    pub fn next(&mut self, a: &Arena) -> (r: Option<NodeId>)
        requires
            a.wf(),
            old(self).valid(*a),
        ensures
            final(self).valid(*a),
            r == old(self).spec_cur(),
            r matches Some(c) ==> c < a.spec_len() && final(self).spec_cur() == a.spec_parent(
                c as int,
            ),
            r is None ==> final(self).spec_cur() is None,
            old(self).spec_remaining(*a) == (match r {
                None => Seq::<NodeId>::empty(),
                Some(c) => seq![c].add(final(self).spec_remaining(*a)),
            }),
    {
        match self.cur {
            None => None,
            Some(c) => {
                self.cur = a.parent(c);
                Some(c)
            },
        }
    }

    /// Skips a fixed count of ancestors (commonly one, to omit an
    /// already-known immediate parent). Skipping past the root leaves the
    /// walker exhausted.
    pub fn skip_ahead(&mut self, a: &Arena, n: usize)
        requires
            a.wf(),
            old(self).valid(*a),
        ensures
            final(self).valid(*a),
            final(self).spec_remaining(*a) == old(self).spec_remaining(*a).skip(
                if n as int <= old(self).spec_remaining(*a).len() {
                    n as int
                } else {
                    old(self).spec_remaining(*a).len() as int
                },
            ),
    {
        let ghost orig = old(self).spec_remaining(*a);
        let mut k: usize = 0;
        while k < n
            invariant
                a.wf(),
                self.valid(*a),
                k <= n,
                orig == old(self).spec_remaining(*a),
                self.spec_remaining(*a) =~= orig.skip(
                    if k as int <= orig.len() {
                        k as int
                    } else {
                        orig.len() as int
                    },
                ),
            decreases n - k,
        {
            let ghost pre = self.spec_remaining(*a);
            let r = self.next(a);
            proof {
                match r {
                    None => {
                        assert(pre.len() == 0);
                        assert(self.spec_remaining(*a) =~= pre);
                    },
                    Some(c) => {
                        assert(pre == seq![c].add(self.spec_remaining(*a)));
                        assert(self.spec_remaining(*a) =~= pre.skip(1));
                        if k as int + 1 <= orig.len() {
                            assert(self.spec_remaining(*a) =~= orig.skip(k as int + 1));
                        }
                    },
                }
            }
            k += 1;
        }
    }

    /// Drains the walker fully, collecting every remaining ancestor id.
    pub fn drain(&mut self, a: &Arena) -> (r: Vec<NodeId>)
        requires
            a.wf(),
            old(self).valid(*a),
        ensures
            final(self).valid(*a),
            r@ == old(self).spec_remaining(*a),
            final(self).spec_cur() is None,
    {
        let mut out: Vec<NodeId> = Vec::new();
        loop
            invariant
                a.wf(),
                self.valid(*a),
                old(self).spec_remaining(*a) == out@ + self.spec_remaining(*a),
            ensures
                self.spec_cur() is None,
                old(self).spec_remaining(*a) == out@ + self.spec_remaining(*a),
            decreases (match self.spec_cur() {
                Some(c) => c as int + 1,
                None => 0int,
            }),
        {
            let ghost pre_out = out@;
            let ghost pre_rem = self.spec_remaining(*a);
            match self.next(a) {
                None => {
                    break;
                },
                Some(c) => {
                    out.push(c);
                    proof {
                        assert(pre_out + pre_rem =~= out@ + self.spec_remaining(*a));
                    }
                },
            }
        }
        proof {
            assert(out@ =~= old(self).spec_remaining(*a));
        }
        out
    }
}

} // verus!

use vstd::prelude::*;
use crate::arena::Arena;
use crate::ast::{AstKind, NodeId};

verus! {

/// The nearest ancestor of `i` that is not a parenthesized-expression
/// wrapper, or `None` when only such wrappers (or nothing) lie above `i`.
pub open spec fn spec_outermost_paren_parent(a: Arena, i: int) -> Option<NodeId>
    decreases i
        when a.wf() && 0 <= i < a.spec_len()
{
    match a.spec_parent(i) {
        None => None,
        Some(p) => if a.spec_kind(p as int) is ParenthesizedExpression {
            spec_outermost_paren_parent(a, p as int)
        } else {
            Some(p)
        },
    }
}

/// The effective parent of `i`: the nearest semantically meaningful
/// ancestor. Parenthesized wrappers are skipped, and one call-argument
/// wrapper directly above them is skipped as well (together with the
/// parenthesized wrappers above it).
pub open spec fn spec_get_parent_node(a: Arena, i: int) -> Option<NodeId> {
    match spec_outermost_paren_parent(a, i) {
        None => None,
        Some(p) => if a.spec_kind(p as int) is Argument {
            spec_outermost_paren_parent(a, p as int)
        } else {
            Some(p)
        },
    }
}

/// Skipping parenthesized wrappers strictly descends through ids.
pub proof fn lemma_outermost_paren_parent_descends(a: Arena, i: int)
    requires
        a.wf(),
        0 <= i < a.spec_len(),
    ensures
        spec_outermost_paren_parent(a, i) matches Some(p) ==> 0 <= p < i,
    decreases i,
{
    match a.spec_parent(i) {
        None => {},
        Some(p) => {
            if a.spec_kind(p as int) is ParenthesizedExpression {
                lemma_outermost_paren_parent_descends(a, p as int);
            }
        },
    }
}

/// Resolution never loops: the effective parent of a node always has a
/// strictly smaller id, so no node is its own transitive ancestor through
/// repeated resolution, and composing the resolver terminates.
pub proof fn lemma_effective_parent_descends(a: Arena, i: int)
    requires
        a.wf(),
        0 <= i < a.spec_len(),
    ensures
        spec_get_parent_node(a, i) matches Some(p) ==> 0 <= p < i,
{
    lemma_outermost_paren_parent_descends(a, i);
    match spec_outermost_paren_parent(a, i) {
        None => {},
        Some(p) => {
            lemma_outermost_paren_parent_descends(a, p as int);
        },
    }
}

/// The nearest non-parenthesized ancestor, as [`spec_outermost_paren_parent`].
pub fn outermost_paren_parent(a: &Arena, id: NodeId) -> (r: Option<NodeId>)
    requires
        a.wf(),
        id < a.spec_len(),
    ensures
        r == spec_outermost_paren_parent(*a, id as int),
        r matches Some(p) ==> p < id,
    decreases id,
{
    match a.parent(id) {
        None => None,
        Some(p) => {
            if matches!(a.kind(p), AstKind::ParenthesizedExpression { .. }) {
                outermost_paren_parent(a, p)
            } else {
                Some(p)
            }
        },
    }
}

/// The effective parent of `id`, as [`spec_get_parent_node`].
pub fn get_parent_node(a: &Arena, id: NodeId) -> (r: Option<NodeId>)
    requires
        a.wf(),
        id < a.spec_len(),
    ensures
        r == spec_get_parent_node(*a, id as int),
        r matches Some(p) ==> p < id,
{
    match outermost_paren_parent(a, id) {
        None => None,
        Some(p) => {
            if matches!(a.kind(p), AstKind::Argument) {
                outermost_paren_parent(a, p)
            } else {
                Some(p)
            }
        },
    }
}

} // verus!

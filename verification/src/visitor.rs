use vstd::prelude::*;
use vstd::seq_lib::*;

verus! {

/// The closed kind-tag set of a small, independent sub-grammar: the shape
/// of a regular-expression pattern embedded in a literal.
#[derive(Clone, Copy, Debug, PartialEq, Eq, Structural)]
pub enum RegexKind {
    Empty,
    Literal,
    CharacterClass,
    Concat,
    Alternation,
    Quantifier,
    Group,
}

/// A regular-expression pattern tree. Unlike the main syntax tree it is a
/// plain recursive value: consumers observe its shape, never its context,
/// so no arena or parent index is needed.
#[derive(Debug)]
pub enum RegexNode {
    Empty,
    Literal(char),
    CharacterClass,
    Concat(Box<RegexNode>, Box<RegexNode>),
    Alternation(Box<RegexNode>, Box<RegexNode>),
    Quantifier(Box<RegexNode>),
    Group(Box<RegexNode>),
}

/// One visitor callback: `Enter` on pre-order arrival, `Leave` on
/// post-order departure.
#[derive(Clone, Copy, Debug, PartialEq, Eq, Structural)]
pub enum VisitEvent {
    Enter(RegexKind),
    Leave(RegexKind),
}

impl RegexNode {
    /// The node's kind tag.
    pub open spec fn spec_kind(self) -> RegexKind {
        match self {
            RegexNode::Empty => RegexKind::Empty,
            RegexNode::Literal(_) => RegexKind::Literal,
            RegexNode::CharacterClass => RegexKind::CharacterClass,
            RegexNode::Concat(_, _) => RegexKind::Concat,
            RegexNode::Alternation(_, _) => RegexKind::Alternation,
            RegexNode::Quantifier(_) => RegexKind::Quantifier,
            RegexNode::Group(_) => RegexKind::Group,
        }
    }

    pub fn kind(&self) -> (k: RegexKind)
        ensures
            k == self.spec_kind(),
    {
        match self {
            RegexNode::Empty => RegexKind::Empty,
            RegexNode::Literal(_) => RegexKind::Literal,
            RegexNode::CharacterClass => RegexKind::CharacterClass,
            RegexNode::Concat(_, _) => RegexKind::Concat,
            RegexNode::Alternation(_, _) => RegexKind::Alternation,
            RegexNode::Quantifier(_) => RegexKind::Quantifier,
            RegexNode::Group(_) => RegexKind::Group,
        }
    }

    /// How many nodes the tree holds.
    pub open spec fn spec_node_count(self) -> nat
        decreases self,
    {
        match self {
            RegexNode::Concat(l, r) => 1 + l.spec_node_count() + r.spec_node_count(),
            RegexNode::Alternation(l, r) => 1 + l.spec_node_count() + r.spec_node_count(),
            RegexNode::Quantifier(c) => 1 + c.spec_node_count(),
            RegexNode::Group(c) => 1 + c.spec_node_count(),
            _ => 1,
        }
    }
}

/// The exact callback sequence of a structural walk: enter a node, walk its
/// children left to right, leave the node.
pub open spec fn spec_events(n: RegexNode) -> Seq<VisitEvent>
    decreases n,
{
    match n {
        RegexNode::Concat(l, r) => seq![VisitEvent::Enter(RegexKind::Concat)].add(
            spec_events(*l),
        ).add(spec_events(*r)).push(VisitEvent::Leave(RegexKind::Concat)),
        RegexNode::Alternation(l, r) => seq![VisitEvent::Enter(RegexKind::Alternation)].add(
            spec_events(*l),
        ).add(spec_events(*r)).push(VisitEvent::Leave(RegexKind::Alternation)),
        RegexNode::Quantifier(c) => seq![VisitEvent::Enter(RegexKind::Quantifier)].add(
            spec_events(*c),
        ).push(VisitEvent::Leave(RegexKind::Quantifier)),
        RegexNode::Group(c) => seq![VisitEvent::Enter(RegexKind::Group)].add(spec_events(*c)).push(
            VisitEvent::Leave(RegexKind::Group),
        ),
        _ => seq![VisitEvent::Enter(n.spec_kind()), VisitEvent::Leave(n.spec_kind())],
    }
}

/// Walks the tree once, producing the enter/leave callback sequence in
/// order: a plain structural walk with no filtering and no context.
pub fn visit(n: &RegexNode) -> (r: Vec<VisitEvent>)
    ensures
        r@ == spec_events(*n),
    decreases *n,
{
    let k = n.kind();
    let mut out: Vec<VisitEvent> = Vec::new();
    out.push(VisitEvent::Enter(k));
    match n {
        RegexNode::Concat(l, r) => {
            let mut lv = visit(l);
            out.append(&mut lv);
            let mut rv = visit(r);
            out.append(&mut rv);
        },
        RegexNode::Alternation(l, r) => {
            let mut lv = visit(l);
            out.append(&mut lv);
            let mut rv = visit(r);
            out.append(&mut rv);
        },
        RegexNode::Quantifier(c) => {
            let mut cv = visit(c);
            out.append(&mut cv);
        },
        RegexNode::Group(c) => {
            let mut cv = visit(c);
            out.append(&mut cv);
        },
        _ => {},
    }
    out.push(VisitEvent::Leave(k));
    proof {
        assert(out@ =~= spec_events(*n));
    }
    out
}

/// The number of `Enter` events in a callback sequence.
pub open spec fn spec_enter_count(s: Seq<VisitEvent>) -> nat {
    s.filter(|e: VisitEvent| e is Enter).len()
}

/// The number of `Leave` events in a callback sequence.
pub open spec fn spec_leave_count(s: Seq<VisitEvent>) -> nat {
    s.filter(|e: VisitEvent| e is Leave).len()
}

/// Every reachable node is visited exactly once in each direction: the
/// walk produces exactly one `Enter` and one `Leave` per node of the tree.
pub proof fn lemma_visits_each_node_once_each_direction(n: RegexNode)
    ensures
        spec_enter_count(spec_events(n)) == n.spec_node_count(),
        spec_leave_count(spec_events(n)) == n.spec_node_count(),
    decreases n,
{
    let enter_pred = |e: VisitEvent| e is Enter;
    let leave_pred = |e: VisitEvent| e is Leave;
    reveal_with_fuel(Seq::<VisitEvent>::filter, 4);
    match n {
        RegexNode::Concat(l, r) => {
            lemma_visits_each_node_once_each_direction(*l);
            lemma_visits_each_node_once_each_direction(*r);
            lemma_bracketed_counts(RegexKind::Concat, spec_events(*l).add(spec_events(*r)));
            Seq::filter_distributes_over_add(spec_events(*l), spec_events(*r), enter_pred);
            Seq::filter_distributes_over_add(spec_events(*l), spec_events(*r), leave_pred);
        },
        RegexNode::Alternation(l, r) => {
            lemma_visits_each_node_once_each_direction(*l);
            lemma_visits_each_node_once_each_direction(*r);
            lemma_bracketed_counts(RegexKind::Alternation, spec_events(*l).add(spec_events(*r)));
            Seq::filter_distributes_over_add(spec_events(*l), spec_events(*r), enter_pred);
            Seq::filter_distributes_over_add(spec_events(*l), spec_events(*r), leave_pred);
        },
        RegexNode::Quantifier(c) => {
            lemma_visits_each_node_once_each_direction(*c);
            lemma_bracketed_counts(RegexKind::Quantifier, spec_events(*c));
        },
        RegexNode::Group(c) => {
            lemma_visits_each_node_once_each_direction(*c);
            lemma_bracketed_counts(RegexKind::Group, spec_events(*c));
        },
        _ => {
            assert(spec_events(n).drop_last() =~= seq![VisitEvent::Enter(n.spec_kind())]);
            assert(spec_events(n).drop_last().drop_last() =~= Seq::<VisitEvent>::empty());
        },
    }
}

/// Counting through one enter/leave bracket around an inner sequence.
proof fn lemma_bracketed_counts(k: RegexKind, inner: Seq<VisitEvent>)
    ensures
        spec_enter_count(seq![VisitEvent::Enter(k)].add(inner).push(VisitEvent::Leave(k)))
            == 1 + spec_enter_count(inner),
        spec_leave_count(seq![VisitEvent::Enter(k)].add(inner).push(VisitEvent::Leave(k)))
            == 1 + spec_leave_count(inner),
{
    let enter_pred = |e: VisitEvent| e is Enter;
    let leave_pred = |e: VisitEvent| e is Leave;
    reveal_with_fuel(Seq::<VisitEvent>::filter, 4);
    let whole = seq![VisitEvent::Enter(k)].add(inner).push(VisitEvent::Leave(k));
    assert(whole.drop_last() =~= seq![VisitEvent::Enter(k)].add(inner));
    Seq::filter_distributes_over_add(seq![VisitEvent::Enter(k)], inner, enter_pred);
    Seq::filter_distributes_over_add(seq![VisitEvent::Enter(k)], inner, leave_pred);
    assert(seq![VisitEvent::Enter(k)].drop_last() =~= Seq::<VisitEvent>::empty());
}

} // verus!

use vstd::prelude::*;
use crate::arena::Arena;
use crate::ast::{kind_children_ok, AstKind, NodeId};

verus! {

/// Whether a node is a function-valued expression: a function expression or
/// an arrow function.
pub open spec fn spec_is_function_node(a: Arena, e: int) -> bool {
    ||| a.spec_kind(e) is Function
    ||| a.spec_kind(e) is ArrowFunctionExpression
}

/// See [`spec_is_function_node`].
pub fn is_function(a: &Arena, e: NodeId) -> (r: bool)
    requires
        e < a.spec_len(),
    ensures
        r == spec_is_function_node(*a, e as int),
{
    matches!(a.kind(e), AstKind::Function { .. } | AstKind::ArrowFunctionExpression { .. })
}

/// How a single statement relates to returning a function value, over every
/// path through it.
#[derive(Clone, Copy, Debug, PartialEq, Eq, Structural)]
pub enum StatementReturnStatus {
    /// No path through the statement returns.
    NotReturn,
    /// Every path returns, with a function-valued argument.
    AlwaysExplicit,
    /// Every path returns, without an argument.
    AlwaysImplicit,
    /// Some path may return a non-function value, or returning is
    /// conditional; such a statement disqualifies a higher-order exemption.
    Indeterminate,
}

/// Classifies one statement of the closed grammar. Statement variants that
/// cannot contain a return (expression statements, declarations, and
/// anything modeled as `Other`) never return.
pub open spec fn spec_check_statement(a: Arena, s: int) -> StatementReturnStatus
    decreases a.spec_len() - s, a.spec_len() + 1
        when a.wf() && 0 <= s < a.spec_len()
{
    match a.spec_kind(s) {
        AstKind::ReturnStatement { argument } => match argument {
            None => StatementReturnStatus::AlwaysImplicit,
            Some(e) => if spec_is_function_node(a, e as int) {
                StatementReturnStatus::AlwaysExplicit
            } else {
                StatementReturnStatus::Indeterminate
            },
        },
        AstKind::IfStatement { consequent, alternate } => match alternate {
            Some(alt) => {
                let x = spec_check_statement(a, consequent as int);
                let y = spec_check_statement(a, alt as int);
                if x == y && (x is AlwaysExplicit || x is AlwaysImplicit
                    || x is NotReturn) {
                    x
                } else {
                    StatementReturnStatus::Indeterminate
                }
            },
            None => {
                if spec_check_statement(a, consequent as int) is NotReturn {
                    StatementReturnStatus::NotReturn
                } else {
                    StatementReturnStatus::Indeterminate
                }
            },
        },
        AstKind::BlockStatement { statements } => spec_block_status(a, statements@, s),
        _ => StatementReturnStatus::NotReturn,
    }
}

/// Classifies a statement list in order: statements after one that always
/// returns are unreachable and ignored.
pub open spec fn spec_block_status(a: Arena, stmts: Seq<NodeId>, owner: int) -> StatementReturnStatus
    decreases a.spec_len() - owner, stmts.len()
        when a.wf() && 0 <= owner < a.spec_len() && stmts.len() <= a.spec_len() && (forall|j: int|
            0 <= j < stmts.len() ==> owner < #[trigger] stmts[j] < a.spec_len())
{
    if stmts.len() == 0 {
        StatementReturnStatus::NotReturn
    } else {
        let h = spec_check_statement(a, stmts[0] as int);
        match h {
            StatementReturnStatus::NotReturn => spec_block_status(a, stmts.drop_first(), owner),
            _ => h,
        }
    }
}

/// See [`spec_check_statement`].
pub fn check_statement(a: &Arena, s: NodeId) -> (r: StatementReturnStatus)
    requires
        a.wf(),
        s < a.spec_len(),
    ensures
        r == spec_check_statement(*a, s as int),
    decreases a.spec_len() - s,
{
    match a.kind(s) {
        AstKind::ReturnStatement { argument } => match argument {
            None => StatementReturnStatus::AlwaysImplicit,
            Some(e) => {
                if is_function(a, *e) {
                    StatementReturnStatus::AlwaysExplicit
                } else {
                    StatementReturnStatus::Indeterminate
                }
            },
        },
        AstKind::IfStatement { consequent, alternate } => {
            let consequent = *consequent;
            let alternate = *alternate;
            match alternate {
                Some(alt) => {
                    let x = check_statement(a, consequent);
                    let y = check_statement(a, alt);
                    if x == y && matches!(
                        x,
                        StatementReturnStatus::AlwaysExplicit
                            | StatementReturnStatus::AlwaysImplicit
                            | StatementReturnStatus::NotReturn
                    ) {
                        x
                    } else {
                        StatementReturnStatus::Indeterminate
                    }
                },
                None => {
                    if matches!(check_statement(a, consequent), StatementReturnStatus::NotReturn) {
                        StatementReturnStatus::NotReturn
                    } else {
                        StatementReturnStatus::Indeterminate
                    }
                },
            }
        },
        AstKind::BlockStatement { statements } => {
            let n = statements.len();
            let mut j: usize = 0;
            proof {
                assert(statements@.skip(0) =~= statements@);
            }
            while j < n
                invariant
                    a.wf(),
                    s < a.spec_len(),
                    a.spec_kind(s as int) matches AstKind::BlockStatement { statements: sts }
                        && sts@ == statements@,
                    n == statements@.len(),
                    0 <= j <= n,
                    spec_check_statement(*a, s as int) == spec_block_status(
                        *a,
                        statements@.skip(j as int),
                        s as int,
                    ),
                decreases n - j,
            {
                proof {
                    assert(kind_children_ok(
                        a.spec_kind(s as int),
                        s as int,
                        a.spec_len() as int,
                    ));
                    assert(statements@.skip(j as int)[0] == statements@[j as int]);
                    assert(statements@.skip(j as int).drop_first() =~= statements@.skip(
                        j as int + 1,
                    ));
                }
                let st = statements[j];
                let h = check_statement(a, st);
                if !matches!(h, StatementReturnStatus::NotReturn) {
                    return h;
                }
                j += 1;
            }
            proof {
                assert(statements@.skip(n as int).len() == 0);
            }
            StatementReturnStatus::NotReturn
        },
        _ => StatementReturnStatus::NotReturn,
    }
}

} // verus!

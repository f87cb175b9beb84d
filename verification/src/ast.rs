use vstd::prelude::*;
use crate::span::Span;

verus! {

/// Dense index of a node in the arena of one analyzed file.
pub type NodeId = usize;

/// The flavour a function node was parsed as.
#[derive(Clone, Copy, Debug, PartialEq, Eq, Structural)]
pub enum FunctionType {
    FunctionDeclaration,
    FunctionExpression,
    TSDeclareFunction,
    TSEmptyBodyFunctionExpression,
}

/// The role of a class-member method.
#[derive(Clone, Copy, Debug, PartialEq, Eq, Structural)]
pub enum MethodDefinitionKind {
    Constructor,
    Method,
    Getter,
    Setter,
}

/// The role of an object-literal property.
#[derive(Clone, Copy, Debug, PartialEq, Eq, Structural)]
pub enum PropertyKind {
    Init,
    Getter,
    Setter,
}

/// One attribute of a JSX opening element, reduced to the plain values the
/// analyses read: an identifier name (absent for spread attributes or computed
/// names) and the text of a string-literal value (absent for any other value
/// form).
#[derive(Clone, Debug)]
pub struct JsxAttribute {
    pub name: Option<String>,
    pub string_value: Option<String>,
}

/// The closed grammar of node variants, with the variant-specific fields the
/// analyses consume. Fields of type `NodeId` point at children; a `wf` arena
/// guarantees every such id is strictly greater than the owning node's id
/// (nodes are created in pre-order) and in bounds.
#[derive(Clone, Debug)]
pub enum AstKind {
    /// The root of a file.
    Program,
    /// A `function` declaration or expression.
    Function {
        ftype: FunctionType,
        /// Name of the function's own identifier, if it has one.
        name: Option<String>,
        /// Span of that identifier; meaningful only when `name` is present.
        id_span: Span,
        has_return_type: bool,
        has_type_parameters: bool,
        /// Span of the parameter list, parentheses included.
        params_span: Span,
        /// The `FunctionBody` child; absent for bodyless declarations.
        body: Option<NodeId>,
    },
    ArrowFunctionExpression {
        /// True when the body is a bare expression rather than a block.
        expression: bool,
        has_return_type: bool,
        has_type_parameters: bool,
        params_span: Span,
        /// The `FunctionBody` child.
        body: NodeId,
    },
    FunctionBody {
        statements: Vec<NodeId>,
    },
    ReturnStatement {
        argument: Option<NodeId>,
    },
    ExpressionStatement {
        expression: NodeId,
    },
    IfStatement {
        consequent: NodeId,
        alternate: Option<NodeId>,
    },
    BlockStatement {
        statements: Vec<NodeId>,
    },
    VariableDeclarator {
        /// The bound name when the pattern is a plain identifier.
        name: Option<String>,
        has_type_annotation: bool,
    },
    MethodDefinition {
        kind: MethodDefinitionKind,
        /// The static name of the key, when it has one.
        key_name: Option<String>,
        /// The method's value: its `Function` child.
        value: NodeId,
    },
    PropertyDefinition {
        key_name: Option<String>,
        has_type_annotation: bool,
    },
    ObjectProperty {
        kind: PropertyKind,
        key_name: Option<String>,
        /// The property's value child.
        value: NodeId,
    },
    ObjectExpression,
    CallExpression {
        /// The callee child.
        callee: NodeId,
    },
    NewExpression,
    /// A parenthesized expression: syntactically transparent.
    ParenthesizedExpression {
        expression: NodeId,
    },
    /// A call-argument wrapper: syntactically transparent.
    Argument,
    /// `expr as T`; `type_ident` is the referenced type's identifier when the
    /// annotation is a plain type reference.
    TSAsExpression {
        type_ident: Option<String>,
    },
    /// `<T>expr`; `type_ident` as for `TSAsExpression`.
    TSTypeAssertion {
        type_ident: Option<String>,
    },
    ExportDefaultDeclaration,
    JSXExpressionContainer,
    JSXSpreadAttribute,
    JSXOpeningElement {
        /// The tag name when it is a plain identifier.
        name: Option<String>,
        attributes: Vec<JsxAttribute>,
    },
    UnaryExpression {
        is_void: bool,
    },
    /// Any node variant the analyses never look inside.
    Other,
}

/// One node of the arena: a stable id, a source span, and the tagged variant.
#[derive(Clone, Debug)]
pub struct AstNode {
    pub id: NodeId,
    pub span: Span,
    pub kind: AstKind,
}

/// Every child id a kind holds lies strictly between the owning node's id and
/// the arena length, and a child list is never longer than the arena itself.
pub open spec fn kind_children_ok(k: AstKind, i: int, len: int) -> bool {
    match k {
        AstKind::Function { body, .. } => body matches Some(b) ==> i < b < len,
        AstKind::ArrowFunctionExpression { body, .. } => i < body < len,
        AstKind::FunctionBody { statements } => {
            &&& statements@.len() <= len
            &&& forall|j: int| 0 <= j < statements@.len() ==> i < #[trigger] statements@[j] < len
        },
        AstKind::ReturnStatement { argument } => argument matches Some(e) ==> i < e < len,
        AstKind::ExpressionStatement { expression } => i < expression < len,
        AstKind::IfStatement { consequent, alternate } => {
            &&& i < consequent < len
            &&& alternate matches Some(e) ==> i < e < len
        },
        AstKind::BlockStatement { statements } => {
            &&& statements@.len() <= len
            &&& forall|j: int| 0 <= j < statements@.len() ==> i < #[trigger] statements@[j] < len
        },
        AstKind::MethodDefinition { value, .. } => i < value < len,
        AstKind::ObjectProperty { value, .. } => i < value < len,
        AstKind::CallExpression { callee } => i < callee < len,
        AstKind::ParenthesizedExpression { expression } => i < expression < len,
        _ => true,
    }
}

/// Runtime check that mirrors `kind_children_ok`.
pub fn check_kind_children(k: &AstKind, i: usize, len: usize) -> (r: bool)
    ensures
        r == kind_children_ok(*k, i as int, len as int),
{
    match k {
        AstKind::Function { body, .. } => match body {
            Some(b) => i < *b && *b < len,
            None => true,
        },
        AstKind::ArrowFunctionExpression { body, .. } => i < *body && *body < len,
        AstKind::FunctionBody { statements } => check_id_list(statements, i, len),
        AstKind::ReturnStatement { argument } => match argument {
            Some(e) => i < *e && *e < len,
            None => true,
        },
        AstKind::ExpressionStatement { expression } => i < *expression && *expression < len,
        AstKind::IfStatement { consequent, alternate } => {
            let alt_ok = match alternate {
                Some(e) => i < *e && *e < len,
                None => true,
            };
            i < *consequent && *consequent < len && alt_ok
        },
        AstKind::BlockStatement { statements } => check_id_list(statements, i, len),
        AstKind::MethodDefinition { value, .. } => i < *value && *value < len,
        AstKind::ObjectProperty { value, .. } => i < *value && *value < len,
        AstKind::CallExpression { callee } => i < *callee && *callee < len,
        AstKind::ParenthesizedExpression { expression } => i < *expression && *expression < len,
        _ => true,
    }
}

fn check_id_list(ids: &Vec<NodeId>, i: usize, len: usize) -> (r: bool)
    ensures
        r == (ids@.len() <= len
            && forall|j: int| 0 <= j < ids@.len() ==> i < #[trigger] ids@[j] < len),
{
    if ids.len() > len {
        return false;
    }
    let mut j: usize = 0;
    while j < ids.len()
        invariant
            0 <= j <= ids@.len(),
            ids@.len() <= len,
            forall|q: int| 0 <= q < j ==> i < #[trigger] ids@[q] < len,
        decreases ids@.len() - j,
    {
        let c = ids[j];
        if !(i < c && c < len) {
            return false;
        }
        j += 1;
    }
    true
}

} // verus!

use vstd::prelude::*;
use crate::arena::Arena;
use crate::ast::{kind_children_ok, AstKind, FunctionType, MethodDefinitionKind, NodeId, PropertyKind};
use crate::config::ConfigValue;
use crate::diagnostics::{Diagnostic, DiagnosticSink, Severity};
use crate::resolver::{get_parent_node, lemma_effective_parent_descends, spec_get_parent_node};
use crate::return_checker::{check_statement, is_function, spec_check_statement, spec_is_function_node, StatementReturnStatus};
use crate::span::Span;
use crate::text::string_is;
use crate::walker::AncestorWalker;

verus! {

/// Options of the return-type-annotation rule, bound once before a run and
/// immutable afterwards.
#[derive(Debug, Default)]
pub struct ExplicitFunctionReturnTypeConfig {
    pub allow_expressions: bool,
    pub allow_typed_function_expressions: bool,
    pub allow_direct_const_assertion_in_arrow_functions: bool,
    pub allow_concise_arrow_function_expressions_starting_with_void: bool,
    pub allow_functions_without_type_parameters: bool,
    pub allowed_names: Vec<String>,
    pub allow_higher_order_functions: bool,
    pub allow_iifes: bool,
}

/// The rule: decides, for every function-like node, whether a missing
/// explicit return-type annotation is acceptable in its context.
#[derive(Debug, Default)]
pub struct ExplicitFunctionReturnType(pub ExplicitFunctionReturnTypeConfig);

/// The boolean under `key` in an object, or `default` when the key is
/// missing or its value is not a boolean.
pub open spec fn spec_key_bool(o: ConfigValue, key: Seq<char>, default: bool) -> bool {
    match o.spec_get_key(key) {
        Some(v) => match v.spec_as_bool() {
            Some(b) => b,
            None => default,
        },
        None => default,
    }
}

/// An option of the rule: read from the first configuration element, with
/// the rule's documented default on any malformed shape.
pub open spec fn spec_opt_bool(value: ConfigValue, key: Seq<char>, default: bool) -> bool {
    match value.spec_get_index(0) {
        Some(o) => spec_key_bool(o, key, default),
        None => default,
    }
}

/// The strings among `items`, in order; other shapes are ignored.
pub open spec fn spec_string_items(items: Seq<ConfigValue>) -> Seq<Seq<char>>
    decreases items.len(),
{
    if items.len() == 0 {
        Seq::empty()
    } else {
        spec_string_items(items.drop_last()).add(
            match items.last() {
                ConfigValue::Str(s) => seq![s@],
                _ => Seq::empty(),
            },
        )
    }
}

/// The configured allow-list of function names.
pub open spec fn spec_allowed_names(value: ConfigValue) -> Seq<Seq<char>> {
    match value.spec_get_index(0) {
        Some(o) => match o.spec_get_key("allowedNames"@) {
            Some(v) => match v {
                ConfigValue::Array(items) => spec_string_items(items@),
                _ => Seq::empty(),
            },
            None => Seq::empty(),
        },
        None => Seq::empty(),
    }
}

/// Whether `s` is one of the configured names.
pub open spec fn spec_name_allowed(names: Seq<String>, s: Seq<char>) -> bool {
    exists|k: int| 0 <= k < names.len() && (#[trigger] names[k])@ == s
}

fn opt_bool(options: Option<&ConfigValue>, key: &str, default: bool) -> (r: bool)
    ensures
        r == (match options {
            Some(o) => spec_key_bool(*o, key@, default),
            None => default,
        }),
{
    match options {
        Some(o) => o.bool_option(key, default),
        None => default,
    }
}

fn string_items(items: &Vec<ConfigValue>) -> (r: Vec<String>)
    ensures
        r@.map_values(|s: String| s@) == spec_string_items(items@),
{
    let mut out: Vec<String> = Vec::new();
    let n = items.len();
    let mut j: usize = 0;
    proof {
        assert(items@.take(0) =~= Seq::<ConfigValue>::empty());
        assert(out@.map_values(|s: String| s@) =~= spec_string_items(items@.take(0)));
    }
    while j < n
        invariant
            n == items@.len(),
            0 <= j <= n,
            out@.map_values(|s: String| s@) == spec_string_items(items@.take(j as int)),
        decreases n - j,
    {
        proof {
            assert(items@.take(j as int + 1).drop_last() =~= items@.take(j as int));
            assert(items@.take(j as int + 1).last() == items@[j as int]);
        }
        let ghost pre = out@;
        match &items[j] {
            ConfigValue::Str(s) => {
                out.push(s.clone());
                proof {
                    assert(out@.map_values(|s: String| s@) =~= pre.map_values(|s: String| s@)
                        + seq![items@[j as int]->Str_0@]);
                }
            },
            _ => {
                proof {
                    assert(spec_string_items(items@.take(j as int + 1)) =~= spec_string_items(
                        items@.take(j as int),
                    ));
                }
            },
        }
        j += 1;
    }
    proof {
        assert(items@.take(n as int) =~= items@);
    }
    out
}

fn name_in(names: &Vec<String>, name: &String) -> (r: bool)
    ensures
        r == spec_name_allowed(names@, name@),
{
    let n = names.len();
    let mut j: usize = 0;
    while j < n
        invariant
            n == names@.len(),
            0 <= j <= n,
            forall|k: int| 0 <= k < j ==> (#[trigger] names@[k])@ != name@,
        decreases n - j,
    {
        if names[j].eq(name) {
            return true;
        }
        j += 1;
    }
    false
}

impl ExplicitFunctionReturnType {
    /// Binds the rule's options from an already-validated configuration
    /// value: the options object is the first array element; a missing or
    /// malformed option falls back to its documented default.
    pub fn from_configuration(value: &ConfigValue) -> (r: ExplicitFunctionReturnType)
        ensures
            r.0.allow_expressions == spec_opt_bool(*value, "allowExpressions"@, false),
            r.0.allow_typed_function_expressions == spec_opt_bool(
                *value,
                "allowTypedFunctionExpressions"@,
                true,
            ),
            r.0.allow_direct_const_assertion_in_arrow_functions == spec_opt_bool(
                *value,
                "allowDirectConstAssertionInArrowFunctions"@,
                true,
            ),
            r.0.allow_concise_arrow_function_expressions_starting_with_void == spec_opt_bool(
                *value,
                "allowConciseArrowFunctionExpressionsStartingWithVoid"@,
                false,
            ),
            r.0.allow_functions_without_type_parameters == spec_opt_bool(
                *value,
                "allowFunctionsWithoutTypeParameters"@,
                false,
            ),
            r.0.allowed_names@.map_values(|s: String| s@) == spec_allowed_names(*value),
            r.0.allow_higher_order_functions == spec_opt_bool(
                *value,
                "allowHigherOrderFunctions"@,
                false,
            ),
            r.0.allow_iifes == spec_opt_bool(*value, "allowIIFEs"@, false),
    {
        let options = value.get_index(0);
        let allowed_names: Vec<String> = match options {
            Some(o) => match o.get_key("allowedNames") {
                Some(v) => match v.as_array() {
                    Some(items) => string_items(items),
                    None => Vec::new(),
                },
                None => Vec::new(),
            },
            None => Vec::new(),
        };
        proof {
            assert(Seq::<String>::empty().map_values(|s: String| s@) =~= Seq::<Seq<char>>::empty());
        }
        ExplicitFunctionReturnType(
            ExplicitFunctionReturnTypeConfig {
                allow_expressions: opt_bool(options, "allowExpressions", false),
                allow_typed_function_expressions: opt_bool(
                    options,
                    "allowTypedFunctionExpressions",
                    true,
                ),
                allow_direct_const_assertion_in_arrow_functions: opt_bool(
                    options,
                    "allowDirectConstAssertionInArrowFunctions",
                    true,
                ),
                allow_concise_arrow_function_expressions_starting_with_void: opt_bool(
                    options,
                    "allowConciseArrowFunctionExpressionsStartingWithVoid",
                    false,
                ),
                allow_functions_without_type_parameters: opt_bool(
                    options,
                    "allowFunctionsWithoutTypeParameters",
                    false,
                ),
                allowed_names,
                allow_higher_order_functions: opt_bool(options, "allowHigherOrderFunctions", false),
                allow_iifes: opt_bool(options, "allowIIFEs", false),
            },
        )
    }
}


/// Whether node `i` is a class-constructor definition.
pub open spec fn spec_is_constructor(a: Arena, i: int) -> bool {
    a.spec_kind(i) matches AstKind::MethodDefinition { kind: MethodDefinitionKind::Constructor, .. }
}

/// Whether node `i` is a setter definition (class member or object literal).
pub open spec fn spec_is_setter(a: Arena, i: int) -> bool {
    ||| a.spec_kind(i) matches AstKind::MethodDefinition { kind: MethodDefinitionKind::Setter, .. }
    ||| a.spec_kind(i) matches AstKind::ObjectProperty { kind: PropertyKind::Setter, .. }
}

/// Whether the raw parent of node `i` is a constructor or setter
/// definition; such functions never carry return-type annotations.
pub open spec fn spec_is_constructor_or_setter(a: Arena, i: int) -> bool {
    match a.spec_parent(i) {
        None => false,
        Some(p) => spec_is_constructor(a, p as int) || spec_is_setter(a, p as int),
    }
}

fn is_constructor(a: &Arena, i: NodeId) -> (r: bool)
    requires
        i < a.spec_len(),
    ensures
        r == spec_is_constructor(*a, i as int),
{
    matches!(
        a.kind(i),
        AstKind::MethodDefinition { kind: MethodDefinitionKind::Constructor, .. }
    )
}

fn is_setter(a: &Arena, i: NodeId) -> (r: bool)
    requires
        i < a.spec_len(),
    ensures
        r == spec_is_setter(*a, i as int),
{
    match a.kind(i) {
        AstKind::MethodDefinition { kind: MethodDefinitionKind::Setter, .. } => true,
        AstKind::ObjectProperty { kind: PropertyKind::Setter, .. } => true,
        _ => false,
    }
}

/// See [`spec_is_constructor_or_setter`].
pub fn is_constructor_or_setter(a: &Arena, node: NodeId) -> (r: bool)
    requires
        a.wf(),
        node < a.spec_len(),
    ensures
        r == spec_is_constructor_or_setter(*a, node as int),
{
    match a.parent(node) {
        None => false,
        Some(p) => is_constructor(a, p) || is_setter(a, p),
    }
}

/// Whether the effective parent of node `i` is a call expression: the
/// function is invoked immediately at its definition site.
pub open spec fn spec_is_iife(a: Arena, i: int) -> bool {
    match spec_get_parent_node(a, i) {
        None => false,
        Some(p) => a.spec_kind(p as int) is CallExpression,
    }
}

fn is_iife(a: &Arena, node: NodeId) -> (r: bool)
    requires
        a.wf(),
        node < a.spec_len(),
    ensures
        r == spec_is_iife(*a, node as int),
{
    match get_parent_node(a, node) {
        None => false,
        Some(p) => matches!(a.kind(p), AstKind::CallExpression { .. }),
    }
}

/// Whether node `i` is a `new`-expression: its arguments are constructor
/// arguments.
pub open spec fn spec_is_constructor_argument(a: Arena, i: int) -> bool {
    a.spec_kind(i) is NewExpression
}

fn is_constructor_argument(a: &Arena, i: NodeId) -> (r: bool)
    requires
        i < a.spec_len(),
    ensures
        r == spec_is_constructor_argument(*a, i as int),
{
    matches!(a.kind(i), AstKind::NewExpression)
}

/// Whether node `i` is a type assertion (`as T` or `<T>`).
pub open spec fn spec_is_type_assertion(a: Arena, i: int) -> bool {
    ||| a.spec_kind(i) is TSAsExpression
    ||| a.spec_kind(i) is TSTypeAssertion
}

fn is_type_assertion(a: &Arena, i: NodeId) -> (r: bool)
    requires
        i < a.spec_len(),
    ensures
        r == spec_is_type_assertion(*a, i as int),
{
    matches!(a.kind(i), AstKind::TSAsExpression { .. } | AstKind::TSTypeAssertion { .. })
}

/// Whether node `i` is a variable declarator with its own type annotation.
pub open spec fn spec_is_variable_declarator_with_type_annotation(a: Arena, i: int) -> bool {
    a.spec_kind(i) matches AstKind::VariableDeclarator { has_type_annotation: true, .. }
}

fn is_variable_declarator_with_type_annotation(a: &Arena, i: NodeId) -> (r: bool)
    requires
        i < a.spec_len(),
    ensures
        r == spec_is_variable_declarator_with_type_annotation(*a, i as int),
{
    matches!(a.kind(i), AstKind::VariableDeclarator { has_type_annotation: true, .. })
}

/// Whether node `i` is a class property with a type annotation.
pub open spec fn spec_is_property_definition_with_type_annotation(a: Arena, i: int) -> bool {
    a.spec_kind(i) matches AstKind::PropertyDefinition { has_type_annotation: true, .. }
}

fn is_property_definition_with_type_annotation(a: &Arena, i: NodeId) -> (r: bool)
    requires
        i < a.spec_len(),
    ensures
        r == spec_is_property_definition_with_type_annotation(*a, i as int),
{
    matches!(a.kind(i), AstKind::PropertyDefinition { has_type_annotation: true, .. })
}

/// Whether node `i` is a type-constrained JSX position: an expression
/// container or a spread attribute.
pub open spec fn spec_is_typed_jsx(a: Arena, i: int) -> bool {
    ||| a.spec_kind(i) is JSXExpressionContainer
    ||| a.spec_kind(i) is JSXSpreadAttribute
}

fn is_typed_jsx(a: &Arena, i: NodeId) -> (r: bool)
    requires
        i < a.spec_len(),
    ensures
        r == spec_is_typed_jsx(*a, i as int),
{
    matches!(a.kind(i), AstKind::JSXExpressionContainer | AstKind::JSXSpreadAttribute)
}

/// The expression under node `e` once parenthesized wrappers are removed.
pub open spec fn spec_without_parenthesized(a: Arena, e: int) -> int
    decreases a.spec_len() - e
        when a.wf() && 0 <= e < a.spec_len()
{
    match a.spec_kind(e) {
        AstKind::ParenthesizedExpression { expression } => spec_without_parenthesized(
            a,
            expression as int,
        ),
        _ => e,
    }
}

fn without_parenthesized(a: &Arena, e: NodeId) -> (r: NodeId)
    requires
        a.wf(),
        e < a.spec_len(),
    ensures
        r == spec_without_parenthesized(*a, e as int),
        r < a.spec_len(),
    decreases a.spec_len() - e,
{
    match a.kind(e) {
        AstKind::ParenthesizedExpression { expression } => {
            let inner = *expression;
            proof {
                assert(kind_children_ok(a.spec_kind(e as int), e as int, a.spec_len() as int));
            }
            without_parenthesized(a, inner)
        },
        _ => e,
    }
}

/// Whether `parent` puts `callee` (a function-like node) in a call-argument
/// position: `parent` is a call whose own callee, parentheses removed, is a
/// different node than `callee`. With no `callee` given, any call parent
/// counts.
pub open spec fn spec_is_function_argument(a: Arena, parent: int, callee: Option<int>) -> bool {
    match a.spec_kind(parent) {
        AstKind::CallExpression { callee: c } => match callee {
            None => true,
            Some(cl) => {
                let u = spec_without_parenthesized(a, c as int);
                match a.spec_kind(u) {
                    AstKind::Function { .. } => if a.spec_kind(cl) is Function {
                        a.spec_span(u) != a.spec_span(cl)
                    } else {
                        false
                    },
                    AstKind::ArrowFunctionExpression { .. } => if a.spec_kind(cl)
                        is ArrowFunctionExpression {
                        a.spec_span(u) != a.spec_span(cl)
                    } else {
                        false
                    },
                    _ => true,
                }
            },
        },
        _ => false,
    }
}

fn is_function_argument(a: &Arena, parent: NodeId, callee: Option<NodeId>) -> (r: bool)
    requires
        a.wf(),
        parent < a.spec_len(),
        callee matches Some(cl) ==> cl < a.spec_len(),
    ensures
        r == spec_is_function_argument(
            *a,
            parent as int,
            match callee {
                Some(cl) => Some(cl as int),
                None => None,
            },
        ),
{
    match a.kind(parent) {
        AstKind::CallExpression { callee: c } => {
            let c = *c;
            match callee {
                None => true,
                Some(cl) => {
                    proof {
                        assert(kind_children_ok(
                            a.spec_kind(parent as int),
                            parent as int,
                            a.spec_len() as int,
                        ));
                    }
                    let u = without_parenthesized(a, c);
                    match a.kind(u) {
                        AstKind::Function { .. } => {
                            if matches!(a.kind(cl), AstKind::Function { .. }) {
                                let su = a.span(u);
                                let sc = a.span(cl);
                                su != sc
                            } else {
                                false
                            }
                        },
                        AstKind::ArrowFunctionExpression { .. } => {
                            if matches!(a.kind(cl), AstKind::ArrowFunctionExpression { .. }) {
                                let su = a.span(u);
                                let sc = a.span(cl);
                                su != sc
                            } else {
                                false
                            }
                        },
                        _ => true,
                    }
                },
            }
        },
        _ => false,
    }
}

/// Whether `parent` is a position that supplies a contextual type: a type
/// assertion, a typed variable declarator, a typed class property, a
/// call-argument position, or a typed JSX position.
pub open spec fn spec_is_typed_parent(a: Arena, parent: int, callee: Option<int>) -> bool {
    ||| spec_is_type_assertion(a, parent)
    ||| spec_is_variable_declarator_with_type_annotation(a, parent)
    ||| spec_is_property_definition_with_type_annotation(a, parent)
    ||| spec_is_function_argument(a, parent, callee)
    ||| spec_is_typed_jsx(a, parent)
}

/// The bare expression body of an arrow function, when it has one.
pub open spec fn spec_arrow_expression(a: Arena, i: int) -> Option<NodeId> {
    match a.spec_kind(i) {
        AstKind::ArrowFunctionExpression { expression, body, .. } => if expression {
            match a.spec_kind(body as int) {
                AstKind::FunctionBody { statements } => if statements@.len() > 0 {
                    match a.spec_kind(statements@[0] as int) {
                        AstKind::ExpressionStatement { expression: e } => Some(e),
                        _ => None,
                    }
                } else {
                    None
                },
                _ => None,
            }
        } else {
            None
        },
        _ => None,
    }
}

fn arrow_expression(a: &Arena, i: NodeId) -> (r: Option<NodeId>)
    requires
        a.wf(),
        i < a.spec_len(),
    ensures
        r == spec_arrow_expression(*a, i as int),
        r matches Some(e) ==> e < a.spec_len(),
{
    match a.kind(i) {
        AstKind::ArrowFunctionExpression { expression, body, .. } => {
            let has_expr = *expression;
            let body = *body;
            if !has_expr {
                return None;
            }
            proof {
                assert(kind_children_ok(a.spec_kind(i as int), i as int, a.spec_len() as int));
            }
            match a.kind(body) {
                AstKind::FunctionBody { statements } => {
                    if statements.len() > 0 {
                        proof {
                            assert(kind_children_ok(
                                a.spec_kind(body as int),
                                body as int,
                                a.spec_len() as int,
                            ));
                        }
                        let first = statements[0];
                        match a.kind(first) {
                            AstKind::ExpressionStatement { expression: e } => {
                                proof {
                                    assert(kind_children_ok(
                                        a.spec_kind(first as int),
                                        first as int,
                                        a.spec_len() as int,
                                    ));
                                }
                                Some(*e)
                            },
                            _ => None,
                        }
                    } else {
                        None
                    }
                },
                _ => None,
            }
        },
        _ => None,
    }
}

/// Whether the effective parent of node `i` binds it under a name of the
/// configured allow-list: a variable declarator, method definition, class
/// property, or object-literal property whose name is allowed.
pub open spec fn spec_check_parent_for_is_allowed_function(
    cfg: ExplicitFunctionReturnTypeConfig,
    a: Arena,
    i: int,
) -> bool {
    match spec_get_parent_node(a, i) {
        None => false,
        Some(p) => match a.spec_kind(p as int) {
            AstKind::VariableDeclarator { name, .. } => match name {
                Some(nm) => spec_name_allowed(cfg.allowed_names@, nm@),
                None => false,
            },
            AstKind::MethodDefinition { key_name, .. } => match key_name {
                Some(nm) => spec_name_allowed(cfg.allowed_names@, nm@),
                None => false,
            },
            AstKind::PropertyDefinition { key_name, .. } => match key_name {
                Some(nm) => spec_name_allowed(cfg.allowed_names@, nm@),
                None => false,
            },
            AstKind::ObjectProperty { key_name, .. } => match key_name {
                Some(nm) => spec_name_allowed(cfg.allowed_names@, nm@),
                None => false,
            },
            _ => false,
        },
    }
}

/// Whether node `i` is exempt by a policy-enumerated exemption: no declared
/// type parameters (if allowed), an immediately-invoked expression (if
/// allowed), or a declared/bound name of the allow-list.
pub open spec fn spec_is_allowed_function(
    cfg: ExplicitFunctionReturnTypeConfig,
    a: Arena,
    i: int,
) -> bool {
    match a.spec_kind(i) {
        AstKind::Function { name, has_type_parameters, .. } => {
            if cfg.allow_functions_without_type_parameters && !has_type_parameters {
                true
            } else if cfg.allow_iifes && spec_is_iife(a, i) {
                true
            } else if cfg.allowed_names@.len() == 0 {
                false
            } else {
                match name {
                    Some(nm) => spec_name_allowed(cfg.allowed_names@, nm@),
                    None => spec_check_parent_for_is_allowed_function(cfg, a, i),
                }
            }
        },
        AstKind::ArrowFunctionExpression { has_type_parameters, .. } => {
            if cfg.allow_functions_without_type_parameters && !has_type_parameters {
                true
            } else if cfg.allow_iifes && spec_is_iife(a, i) {
                true
            } else if cfg.allowed_names@.len() == 0 {
                false
            } else {
                spec_check_parent_for_is_allowed_function(cfg, a, i)
            }
        },
        _ => false,
    }
}

/// Whether node `i` is an object-literal property (or a property nested in
/// further object literals) of a value that a contextual type applies to.
pub open spec fn spec_is_property_of_object_with_type(a: Arena, i: int) -> bool
    decreases i
        when a.wf() && 0 <= i < a.spec_len()
        via spec_is_property_of_object_with_type_decreases
{
    if !(a.spec_kind(i) is ObjectProperty) {
        false
    } else {
        match a.spec_parent(i) {
            None => false,
            Some(p) => if !(a.spec_kind(p as int) is ObjectExpression) {
                false
            } else {
                match spec_get_parent_node(a, p as int) {
                    None => false,
                    Some(gp) => spec_is_typed_parent(a, gp as int, None)
                        || spec_is_property_of_object_with_type(a, gp as int),
                }
            },
        }
    }
}

#[via_fn]
proof fn spec_is_property_of_object_with_type_decreases(a: Arena, i: int) {
    if a.wf() && 0 <= i < a.spec_len() {
        match a.spec_parent(i) {
            None => {},
            Some(p) => {
                lemma_effective_parent_descends(a, p as int);
            },
        }
    }
}

/// Whether the raw parent of node `i` leaves the looser expression
/// exemption applicable: variable declarators, method definitions, default
/// exports, and class properties always require their own policy.
pub open spec fn spec_check_allow_expressions(
    cfg: ExplicitFunctionReturnTypeConfig,
    a: Arena,
    i: int,
) -> bool {
    match a.spec_parent(i) {
        None => false,
        Some(p) => cfg.allow_expressions && !(a.spec_kind(p as int) is VariableDeclarator
            || a.spec_kind(p as int) is MethodDefinition
            || a.spec_kind(p as int) is ExportDefaultDeclaration
            || a.spec_kind(p as int) is PropertyDefinition),
    }
}

/// Whether the effective parent of node `i` supplies a contextual type,
/// directly or through nested object literals, or is a constructor call.
pub open spec fn spec_check_typed_function_expression(a: Arena, i: int) -> bool {
    match spec_get_parent_node(a, i) {
        None => false,
        Some(p) => {
            ||| spec_is_typed_parent(a, p as int, Some(i))
            ||| spec_is_property_of_object_with_type(a, p as int)
            ||| spec_is_constructor_argument(a, p as int)
        },
    }
}

/// The full expression-position exemption: a contextual type, or the looser
/// expression policy.
pub open spec fn spec_is_valid_function_expression_return_type(
    cfg: ExplicitFunctionReturnTypeConfig,
    a: Arena,
    i: int,
) -> bool {
    ||| spec_check_typed_function_expression(a, i)
    ||| spec_check_allow_expressions(cfg, a, i)
}

/// Whether an arrow function's block body holds no statements at all.
pub open spec fn spec_arrow_body_is_empty(a: Arena, i: int) -> bool {
    match a.spec_kind(i) {
        AstKind::ArrowFunctionExpression { body, .. } => match a.spec_kind(body as int) {
            AstKind::FunctionBody { statements } => statements@.len() == 0,
            _ => false,
        },
        _ => false,
    }
}

fn arrow_body_is_empty(a: &Arena, i: NodeId) -> (r: bool)
    requires
        a.wf(),
        i < a.spec_len(),
    ensures
        r == spec_arrow_body_is_empty(*a, i as int),
{
    match a.kind(i) {
        AstKind::ArrowFunctionExpression { body, .. } => {
            let body = *body;
            proof {
                assert(kind_children_ok(a.spec_kind(i as int), i as int, a.spec_len() as int));
            }
            match a.kind(body) {
                AstKind::FunctionBody { statements } => statements.len() == 0,
                _ => false,
            }
        },
        _ => false,
    }
}

impl ExplicitFunctionReturnType {
    /// Whether the arrow at `node` is a concise body starting with `void`,
    /// and the corresponding option is on.
    pub fn check_arrow_function_with_void(&self, a: &Arena, node: NodeId) -> (r: bool)
        requires
            a.wf(),
            node < a.spec_len(),
        ensures
            r == spec_check_arrow_function_with_void(self.0, *a, node as int),
    {
        if !self.0.allow_concise_arrow_function_expressions_starting_with_void {
            return false;
        }
        match arrow_expression(a, node) {
            None => false,
            Some(e) => matches!(a.kind(e), AstKind::UnaryExpression { is_void: true }),
        }
    }

    /// See [`spec_is_allowed_function`].
    pub fn is_allowed_function(&self, a: &Arena, node: NodeId) -> (r: bool)
        requires
            a.wf(),
            node < a.spec_len(),
        ensures
            r == spec_is_allowed_function(self.0, *a, node as int),
    {
        match a.kind(node) {
            AstKind::Function { name, has_type_parameters, .. } => {
                if self.0.allow_functions_without_type_parameters && !*has_type_parameters {
                    return true;
                }
                if self.0.allow_iifes && is_iife(a, node) {
                    return true;
                }
                if self.0.allowed_names.len() == 0 {
                    return false;
                }
                match name {
                    Some(nm) => name_in(&self.0.allowed_names, nm),
                    None => self.check_parent_for_is_allowed_function(a, node),
                }
            },
            AstKind::ArrowFunctionExpression { has_type_parameters, .. } => {
                if self.0.allow_functions_without_type_parameters && !*has_type_parameters {
                    return true;
                }
                if self.0.allow_iifes && is_iife(a, node) {
                    return true;
                }
                if self.0.allowed_names.len() == 0 {
                    return false;
                }
                self.check_parent_for_is_allowed_function(a, node)
            },
            _ => false,
        }
    }

    /// See [`spec_check_parent_for_is_allowed_function`].
    pub fn check_parent_for_is_allowed_function(&self, a: &Arena, node: NodeId) -> (r: bool)
        requires
            a.wf(),
            node < a.spec_len(),
        ensures
            r == spec_check_parent_for_is_allowed_function(self.0, *a, node as int),
    {
        let p = match get_parent_node(a, node) {
            Some(p) => p,
            None => {
                return false;
            },
        };
        match a.kind(p) {
            AstKind::VariableDeclarator { name, .. } => match name {
                Some(nm) => name_in(&self.0.allowed_names, nm),
                None => false,
            },
            AstKind::MethodDefinition { key_name, .. } => match key_name {
                Some(nm) => name_in(&self.0.allowed_names, nm),
                None => false,
            },
            AstKind::PropertyDefinition { key_name, .. } => match key_name {
                Some(nm) => name_in(&self.0.allowed_names, nm),
                None => false,
            },
            AstKind::ObjectProperty { key_name, .. } => match key_name {
                Some(nm) => name_in(&self.0.allowed_names, nm),
                None => false,
            },
            _ => false,
        }
    }

    /// See [`spec_is_valid_function_expression_return_type`].
    pub fn is_valid_function_expression_return_type(&self, a: &Arena, node: NodeId) -> (r: bool)
        requires
            a.wf(),
            node < a.spec_len(),
        ensures
            r == spec_is_valid_function_expression_return_type(self.0, *a, node as int),
    {
        if self.check_typed_function_expression(a, node) {
            return true;
        }
        self.check_allow_expressions(a, node)
    }

    /// See [`spec_check_typed_function_expression`].
    pub fn check_typed_function_expression(&self, a: &Arena, node: NodeId) -> (r: bool)
        requires
            a.wf(),
            node < a.spec_len(),
        ensures
            r == spec_check_typed_function_expression(*a, node as int),
    {
        let p = match get_parent_node(a, node) {
            Some(p) => p,
            None => {
                return false;
            },
        };
        self.is_typed_parent(a, p, Some(node)) || self.is_property_of_object_with_type(a, p)
            || is_constructor_argument(a, p)
    }

    /// See [`spec_is_typed_parent`].
    pub fn is_typed_parent(&self, a: &Arena, parent: NodeId, callee: Option<NodeId>) -> (r: bool)
        requires
            a.wf(),
            parent < a.spec_len(),
            callee matches Some(cl) ==> cl < a.spec_len(),
        ensures
            r == spec_is_typed_parent(
                *a,
                parent as int,
                match callee {
                    Some(cl) => Some(cl as int),
                    None => None,
                },
            ),
    {
        is_type_assertion(a, parent) || is_variable_declarator_with_type_annotation(a, parent)
            || is_property_definition_with_type_annotation(a, parent)
            || is_function_argument(a, parent, callee) || is_typed_jsx(a, parent)
    }

    /// See [`spec_is_property_of_object_with_type`].
    pub fn is_property_of_object_with_type(&self, a: &Arena, node: NodeId) -> (r: bool)
        requires
            a.wf(),
            node < a.spec_len(),
        ensures
            r == spec_is_property_of_object_with_type(*a, node as int),
        decreases node,
    {
        if !matches!(a.kind(node), AstKind::ObjectProperty { .. }) {
            return false;
        }
        let p = match a.parent(node) {
            Some(p) => p,
            None => {
                return false;
            },
        };
        if !matches!(a.kind(p), AstKind::ObjectExpression) {
            return false;
        }
        let gp = match get_parent_node(a, p) {
            Some(gp) => gp,
            None => {
                return false;
            },
        };
        self.is_typed_parent(a, gp, None) || self.is_property_of_object_with_type(a, gp)
    }

    /// See [`spec_check_allow_expressions`].
    pub fn check_allow_expressions(&self, a: &Arena, node: NodeId) -> (r: bool)
        requires
            a.wf(),
            node < a.spec_len(),
        ensures
            r == spec_check_allow_expressions(self.0, *a, node as int),
    {
        let p = match a.parent(node) {
            Some(p) => p,
            None => {
                return false;
            },
        };
        self.0.allow_expressions && !matches!(
            a.kind(p),
            AstKind::VariableDeclarator { .. }
                | AstKind::MethodDefinition { .. }
                | AstKind::ExportDefaultDeclaration
                | AstKind::PropertyDefinition { .. }
        )
    }

    /// Whether the arrow at `node` directly returns a `const` assertion, and
    /// the corresponding option is on.
    pub fn returns_const_assertion_directly(&self, a: &Arena, node: NodeId) -> (r: bool)
        requires
            a.wf(),
            node < a.spec_len(),
        ensures
            r == spec_returns_const_assertion_directly(self.0, *a, node as int),
    {
        if !self.0.allow_direct_const_assertion_in_arrow_functions {
            return false;
        }
        if !matches!(a.kind(node), AstKind::ArrowFunctionExpression { .. }) {
            return false;
        }
        let e = match arrow_expression(a, node) {
            Some(e) => e,
            None => {
                return false;
            },
        };
        match a.kind(e) {
            AstKind::TSAsExpression { type_ident } => match type_ident {
                Some(nm) => string_is(nm, "const"),
                None => false,
            },
            AstKind::TSTypeAssertion { type_ident } => match type_ident {
                Some(nm) => string_is(nm, "const"),
                None => false,
            },
            _ => false,
        }
    }
}

/// Whether the arrow at `i` is a concise body starting with `void`, under
/// the corresponding option.
pub open spec fn spec_check_arrow_function_with_void(
    cfg: ExplicitFunctionReturnTypeConfig,
    a: Arena,
    i: int,
) -> bool {
    &&& cfg.allow_concise_arrow_function_expressions_starting_with_void
    &&& match spec_arrow_expression(a, i) {
        None => false,
        Some(e) => a.spec_kind(e as int) matches AstKind::UnaryExpression { is_void: true },
    }
}

/// Whether the arrow at `i` directly returns an assertion to the literal
/// pseudo-type `const`, under the corresponding option.
pub open spec fn spec_returns_const_assertion_directly(
    cfg: ExplicitFunctionReturnTypeConfig,
    a: Arena,
    i: int,
) -> bool {
    &&& cfg.allow_direct_const_assertion_in_arrow_functions
    &&& a.spec_kind(i) is ArrowFunctionExpression
    &&& match spec_arrow_expression(a, i) {
        None => false,
        Some(e) => match a.spec_kind(e as int) {
            AstKind::TSAsExpression { type_ident } => match type_ident {
                Some(nm) => nm@ == "const"@,
                None => false,
            },
            AstKind::TSTypeAssertion { type_ident } => match type_ident {
                Some(nm) => nm@ == "const"@,
                None => false,
            },
            _ => false,
        },
    }
}

/// Whether node `i` is a return statement, or an arrow function with an
/// entirely empty body.
pub open spec fn spec_check_return_statement_and_bodyless(a: Arena, i: int) -> bool {
    match a.spec_kind(i) {
        AstKind::ReturnStatement { .. } => true,
        AstKind::ArrowFunctionExpression { .. } => spec_arrow_body_is_empty(a, i),
        _ => false,
    }
}

fn check_return_statement_and_bodyless(a: &Arena, i: NodeId) -> (r: bool)
    requires
        a.wf(),
        i < a.spec_len(),
    ensures
        r == spec_check_return_statement_and_bodyless(*a, i as int),
{
    match a.kind(i) {
        AstKind::ReturnStatement { .. } => true,
        AstKind::ArrowFunctionExpression { .. } => arrow_body_is_empty(a, i),
        _ => false,
    }
}

/// One step of the upward scan for an ancestor that already fixes the
/// return type: enclosing functions count when annotated, a declarator or
/// class property answers with its own annotation, and an expression
/// statement stops the scan unless it directly forms a function body.
pub open spec fn spec_ancestor_scan(a: Arena, cur: int) -> bool
    decreases cur
        when a.wf() && 0 <= cur < a.spec_len()
{
    let continue_up = match a.spec_parent(cur) {
        None => false,
        Some(nx) => spec_ancestor_scan(a, nx as int),
    };
    match a.spec_kind(cur) {
        AstKind::ArrowFunctionExpression { has_return_type, .. } => if has_return_type {
            true
        } else {
            continue_up
        },
        AstKind::Function { has_return_type, .. } => if has_return_type {
            true
        } else {
            continue_up
        },
        AstKind::VariableDeclarator { has_type_annotation, .. } => has_type_annotation,
        AstKind::PropertyDefinition { has_type_annotation, .. } => has_type_annotation,
        AstKind::ExpressionStatement { .. } => match spec_get_parent_node(a, cur) {
            None => false,
            Some(ep) => if a.spec_kind(ep as int) is FunctionBody {
                continue_up
            } else {
                false
            },
        },
        _ => continue_up,
    }
}

/// Whether some ancestor of node `i` already determines its return type.
pub open spec fn spec_ancestor_has_return_type(a: Arena, i: int) -> bool {
    match spec_get_parent_node(a, i) {
        None => false,
        Some(p) => {
            let scan = match a.spec_parent(i) {
                None => false,
                Some(rp) => spec_ancestor_scan(a, rp as int),
            };
            match a.spec_kind(p as int) {
                AstKind::ObjectProperty { value, .. } => match a.spec_kind(value as int) {
                    AstKind::ArrowFunctionExpression { has_return_type, .. } => {
                        if spec_arrow_body_is_empty(a, value as int) {
                            false
                        } else if has_return_type {
                            true
                        } else {
                            scan
                        }
                    },
                    _ => scan,
                },
                _ => if spec_check_return_statement_and_bodyless(a, p as int) {
                    false
                } else {
                    scan
                },
            }
        },
    }
}

/// Whether a statement qualifies the enclosing function as returning: a
/// return statement with an argument, or a statement that always returns a
/// function on every path.
pub open spec fn spec_stmt_counts_return(a: Arena, s: int) -> bool {
    match a.spec_kind(s) {
        AstKind::ReturnStatement { argument } => argument is Some,
        _ => spec_check_statement(a, s) is AlwaysExplicit,
    }
}

/// Whether a statement is compatible with a higher-order exemption: a
/// return of a function value, or a statement that either never returns or
/// always returns a function.
pub open spec fn spec_stmt_valid_for_higher_order(a: Arena, s: int) -> bool {
    match a.spec_kind(s) {
        AstKind::ReturnStatement { argument } => match argument {
            Some(e) => spec_is_function_node(a, e as int),
            None => false,
        },
        _ => {
            ||| spec_check_statement(a, s) is NotReturn
            ||| spec_check_statement(a, s) is AlwaysExplicit
        },
    }
}

/// Whether a non-empty statement list returns a function value on every
/// reachable path, with at least one qualifying return.
pub open spec fn spec_check_return_statements(a: Arena, stmts: Seq<NodeId>) -> bool {
    &&& stmts.len() > 0
    &&& exists|k: int| 0 <= k < stmts.len() && spec_stmt_counts_return(a, #[trigger] stmts[k] as int)
    &&& forall|k: int|
        0 <= k < stmts.len() ==> spec_stmt_valid_for_higher_order(a, #[trigger] stmts[k] as int)
}

fn check_return_statements(a: &Arena, stmts: &Vec<NodeId>) -> (r: bool)
    requires
        a.wf(),
        forall|k: int| 0 <= k < stmts@.len() ==> (#[trigger] stmts@[k]) < a.spec_len(),
    ensures
        r == spec_check_return_statements(*a, stmts@),
{
    let n = stmts.len();
    if n == 0 {
        return false;
    }
    let mut has_return = false;
    let mut j: usize = 0;
    while j < n
        invariant
            a.wf(),
            n == stmts@.len(),
            0 <= j <= n,
            forall|k: int| 0 <= k < stmts@.len() ==> (#[trigger] stmts@[k]) < a.spec_len(),
            forall|k: int|
                0 <= k < j ==> spec_stmt_valid_for_higher_order(*a, #[trigger] stmts@[k] as int),
            has_return == exists|k: int|
                0 <= k < j && spec_stmt_counts_return(*a, #[trigger] stmts@[k] as int),
        decreases n - j,
    {
        let s = stmts[j];
        match a.kind(s) {
            AstKind::ReturnStatement { argument } => match argument {
                Some(e) => {
                    let e = *e;
                    proof {
                        assert(kind_children_ok(
                            a.spec_kind(s as int),
                            s as int,
                            a.spec_len() as int,
                        ));
                    }
                    has_return = true;
                    proof {
                        assert(spec_stmt_counts_return(*a, stmts@[j as int] as int));
                    }
                    if !is_function(a, e) {
                        proof {
                            assert(!spec_stmt_valid_for_higher_order(*a, stmts@[j as int] as int));
                        }
                        return false;
                    }
                },
                None => {
                    proof {
                        assert(!spec_stmt_valid_for_higher_order(*a, stmts@[j as int] as int));
                    }
                    return false;
                },
            },
            _ => {
                let status = check_statement(a, s);
                if matches!(status, StatementReturnStatus::AlwaysExplicit) {
                    has_return = true;
                    proof {
                        assert(spec_stmt_counts_return(*a, stmts@[j as int] as int));
                    }
                } else if !matches!(status, StatementReturnStatus::NotReturn) {
                    proof {
                        assert(!spec_stmt_valid_for_higher_order(*a, stmts@[j as int] as int));
                    }
                    return false;
                }
            },
        }
        j += 1;
    }
    has_return
}

/// Whether every reachable return path of the function-like node `i`
/// yields a function value.
pub open spec fn spec_all_return_statements_are_functions(a: Arena, i: int) -> bool {
    match a.spec_kind(i) {
        AstKind::ArrowFunctionExpression { body, .. } => match a.spec_kind(body as int) {
            AstKind::FunctionBody { statements } => spec_check_return_statements(a, statements@),
            _ => false,
        },
        AstKind::Function { body, .. } => match body {
            Some(b) => match a.spec_kind(b as int) {
                AstKind::FunctionBody { statements } => spec_check_return_statements(
                    a,
                    statements@,
                ),
                _ => false,
            },
            None => false,
        },
        _ => false,
    }
}

fn all_return_statements_are_functions(a: &Arena, i: NodeId) -> (r: bool)
    requires
        a.wf(),
        i < a.spec_len(),
    ensures
        r == spec_all_return_statements_are_functions(*a, i as int),
{
    let b: NodeId = match a.kind(i) {
        AstKind::ArrowFunctionExpression { body, .. } => *body,
        AstKind::Function { body, .. } => match body {
            Some(b) => *b,
            None => {
                return false;
            },
        },
        _ => {
            return false;
        },
    };
    proof {
        assert(kind_children_ok(a.spec_kind(i as int), i as int, a.spec_len() as int));
    }
    match a.kind(b) {
        AstKind::FunctionBody { statements } => {
            proof {
                assert(kind_children_ok(a.spec_kind(b as int), b as int, a.spec_len() as int));
            }
            check_return_statements(a, statements)
        },
        _ => false,
    }
}

/// Whether the function at `i` immediately returns another function on
/// every path, under the higher-order option: a bare function-valued
/// expression body, or a block whose statements all qualify.
pub open spec fn spec_does_immediately_return_function_expression(
    cfg: ExplicitFunctionReturnTypeConfig,
    a: Arena,
    i: int,
) -> bool {
    &&& cfg.allow_higher_order_functions
    &&& match spec_arrow_expression(a, i) {
        Some(e) => spec_is_function_node(a, e as int),
        None => spec_all_return_statements_are_functions(a, i),
    }
}

impl ExplicitFunctionReturnType {
    /// See [`spec_ancestor_has_return_type`].
    pub fn ancestor_has_return_type(&self, a: &Arena, node: NodeId) -> (r: bool)
        requires
            a.wf(),
            node < a.spec_len(),
        ensures
            r == spec_ancestor_has_return_type(*a, node as int),
    {
        let p = match get_parent_node(a, node) {
            Some(p) => p,
            None => {
                return false;
            },
        };
        match a.kind(p) {
            AstKind::ObjectProperty { value, .. } => {
                let value = *value;
                proof {
                    assert(kind_children_ok(a.spec_kind(p as int), p as int, a.spec_len() as int));
                }
                match a.kind(value) {
                    AstKind::ArrowFunctionExpression { has_return_type, .. } => {
                        let hrt = *has_return_type;
                        if arrow_body_is_empty(a, value) {
                            return false;
                        }
                        if hrt {
                            return true;
                        }
                    },
                    _ => {},
                }
            },
            _ => {
                if check_return_statement_and_bodyless(a, p) {
                    return false;
                }
            },
        }
        let mut w = AncestorWalker::new(a, node);
        loop
            invariant
                a.wf(),
                node < a.spec_len(),
                w.valid(*a),
                spec_ancestor_has_return_type(*a, node as int) == (match w.spec_cur() {
                    None => false,
                    Some(c) => spec_ancestor_scan(*a, c as int),
                }),
            decreases (match w.spec_cur() {
                Some(c) => c as int + 1,
                None => 0int,
            }),
        {
            let anc = match w.next(a) {
                Some(c) => c,
                None => {
                    return false;
                },
            };
            match a.kind(anc) {
                AstKind::ArrowFunctionExpression { has_return_type, .. } => {
                    if *has_return_type {
                        return true;
                    }
                },
                AstKind::Function { has_return_type, .. } => {
                    if *has_return_type {
                        return true;
                    }
                },
                AstKind::VariableDeclarator { has_type_annotation, .. } => {
                    return *has_type_annotation;
                },
                AstKind::PropertyDefinition { has_type_annotation, .. } => {
                    return *has_type_annotation;
                },
                AstKind::ExpressionStatement { .. } => {
                    let ep = match get_parent_node(a, anc) {
                        Some(ep) => ep,
                        None => {
                            return false;
                        },
                    };
                    if !matches!(a.kind(ep), AstKind::FunctionBody { .. }) {
                        return false;
                    }
                },
                _ => {},
            }
        }
    }

    /// See [`spec_does_immediately_return_function_expression`].
    pub fn does_immediately_return_function_expression(&self, a: &Arena, node: NodeId) -> (r: bool)
        requires
            a.wf(),
            node < a.spec_len(),
        ensures
            r == spec_does_immediately_return_function_expression(self.0, *a, node as int),
    {
        if !self.0.allow_higher_order_functions {
            return false;
        }
        match arrow_expression(a, node) {
            Some(e) => is_function(a, e),
            None => all_return_statements_are_functions(a, node),
        }
    }
}

/// The parameter-list span of a function-like node; zero for any other
/// variant.
pub open spec fn spec_params_span(a: Arena, i: int) -> Span {
    match a.spec_kind(i) {
        AstKind::Function { params_span, .. } => params_span,
        AstKind::ArrowFunctionExpression { params_span, .. } => params_span,
        _ => (Span { start: 0, end: 0 }),
    }
}

fn params_span_of(a: &Arena, i: NodeId) -> (r: Span)
    requires
        i < a.spec_len(),
    ensures
        r == spec_params_span(*a, i as int),
{
    match a.kind(i) {
        AstKind::Function { params_span, .. } => *params_span,
        AstKind::ArrowFunctionExpression { params_span, .. } => *params_span,
        _ => Span { start: 0, end: 0 },
    }
}

/// Byte offsets near the end of the address space are clamped rather than
/// wrapped.
pub open spec fn spec_sat_add(x: u32, k: u32) -> u32 {
    if x + k > u32::MAX {
        u32::MAX
    } else {
        (x + k) as u32
    }
}

fn sat_add(x: u32, k: u32) -> (r: u32)
    ensures
        r == spec_sat_add(x, k),
{
    if x > u32::MAX - k {
        u32::MAX
    } else {
        x + k
    }
}

/// The primary span of a violation on the function node `i`: for bound
/// forms, from the start of the declaration-like construct to the start of
/// the parameter list; for a named expression, to the identifier's end; for
/// an anonymous one, to the parameter-list start.
pub open spec fn spec_function_violation_span(a: Arena, i: int) -> Span {
    let fallback = match a.spec_kind(i) {
        AstKind::Function { ftype, name, id_span, params_span, .. } => {
            if ftype == FunctionType::FunctionExpression {
                Span { start: a.spec_span(i).start, end: params_span.start }
            } else {
                match name {
                    Some(_) => Span { start: a.spec_span(i).start, end: id_span.end },
                    None => Span { start: a.spec_span(i).start, end: params_span.start },
                }
            }
        },
        _ => (Span { start: 0, end: 0 }),
    };
    match spec_get_parent_node(a, i) {
        Some(p) => match a.spec_kind(p as int) {
            AstKind::MethodDefinition { value, .. } => Span {
                start: a.spec_span(p as int).start,
                end: spec_params_span(a, value as int).start,
            },
            AstKind::PropertyDefinition { .. } => Span {
                start: a.spec_span(p as int).start,
                end: spec_params_span(a, i).start,
            },
            AstKind::ObjectProperty { .. } => Span {
                start: a.spec_span(p as int).start,
                end: spec_params_span(a, i).start,
            },
            _ => fallback,
        },
        None => fallback,
    }
}

/// The primary span of a violation on the arrow node `i`: bound forms as
/// for functions; otherwise the two characters just after the parameter
/// list, marking the missing annotation's insertion point.
pub open spec fn spec_arrow_violation_span(a: Arena, i: int) -> Span {
    let params = spec_params_span(a, i);
    let fallback = Span {
        start: spec_sat_add(params.end, 1),
        end: spec_sat_add(params.end, 3),
    };
    match spec_get_parent_node(a, i) {
        Some(p) => match a.spec_kind(p as int) {
            AstKind::MethodDefinition { value, .. } => Span {
                start: a.spec_span(p as int).start,
                end: spec_params_span(a, value as int).start,
            },
            AstKind::PropertyDefinition { .. } => Span {
                start: a.spec_span(p as int).start,
                end: params.start,
            },
            AstKind::ObjectProperty { .. } => Span {
                start: a.spec_span(p as int).start,
                end: params.start,
            },
            _ => fallback,
        },
        None => fallback,
    }
}

fn function_violation_span(a: &Arena, i: NodeId) -> (r: Span)
    requires
        a.wf(),
        i < a.spec_len(),
    ensures
        r == spec_function_violation_span(*a, i as int),
{
    match get_parent_node(a, i) {
        Some(p) => match a.kind(p) {
            AstKind::MethodDefinition { value, .. } => {
                let value = *value;
                proof {
                    assert(kind_children_ok(a.spec_kind(p as int), p as int, a.spec_len() as int));
                }
                let e = params_span_of(a, value);
                return Span { start: a.span(p).start, end: e.start };
            },
            AstKind::PropertyDefinition { .. } => {
                let e = params_span_of(a, i);
                return Span { start: a.span(p).start, end: e.start };
            },
            AstKind::ObjectProperty { .. } => {
                let e = params_span_of(a, i);
                return Span { start: a.span(p).start, end: e.start };
            },
            _ => {},
        },
        None => {},
    }
    match a.kind(i) {
        AstKind::Function { ftype, name, id_span, params_span, .. } => {
            if matches!(ftype, FunctionType::FunctionExpression) {
                Span { start: a.span(i).start, end: params_span.start }
            } else {
                match name {
                    Some(_) => Span { start: a.span(i).start, end: id_span.end },
                    None => Span { start: a.span(i).start, end: params_span.start },
                }
            }
        },
        _ => Span { start: 0, end: 0 },
    }
}

fn arrow_violation_span(a: &Arena, i: NodeId) -> (r: Span)
    requires
        a.wf(),
        i < a.spec_len(),
    ensures
        r == spec_arrow_violation_span(*a, i as int),
{
    let params = params_span_of(a, i);
    match get_parent_node(a, i) {
        Some(p) => match a.kind(p) {
            AstKind::MethodDefinition { value, .. } => {
                let value = *value;
                proof {
                    assert(kind_children_ok(a.spec_kind(p as int), p as int, a.spec_len() as int));
                }
                let e = params_span_of(a, value);
                return Span { start: a.span(p).start, end: e.start };
            },
            AstKind::PropertyDefinition { .. } => {
                return Span { start: a.span(p).start, end: params.start };
            },
            AstKind::ObjectProperty { .. } => {
                return Span { start: a.span(p).start, end: params.start };
            },
            _ => {},
        },
        None => {},
    }
    Span { start: sat_add(params.end, 1), end: sat_add(params.end, 3) }
}

/// The rule's full verdict on a function node: a violation exactly when the
/// node is a declaration or expression without an annotation and no
/// exemption of the priority list applies.
pub open spec fn spec_function_violation(
    cfg: ExplicitFunctionReturnTypeConfig,
    a: Arena,
    i: int,
) -> bool {
    match a.spec_kind(i) {
        AstKind::Function { ftype, has_return_type, .. } => {
            &&& (ftype == FunctionType::FunctionDeclaration
                || ftype == FunctionType::FunctionExpression)
            &&& !has_return_type
            &&& !spec_is_constructor_or_setter(a, i)
            &&& !spec_is_allowed_function(cfg, a, i)
            &&& (ftype == FunctionType::FunctionDeclaration ==> {
                !spec_does_immediately_return_function_expression(cfg, a, i)
            })
            &&& (ftype == FunctionType::FunctionExpression ==> {
                &&& !(cfg.allow_typed_function_expressions
                    && (spec_is_valid_function_expression_return_type(cfg, a, i)
                        || spec_ancestor_has_return_type(a, i)))
                &&& !spec_does_immediately_return_function_expression(cfg, a, i)
            })
        },
        _ => false,
    }
}

/// The rule's full verdict on an arrow node.
pub open spec fn spec_arrow_violation(
    cfg: ExplicitFunctionReturnTypeConfig,
    a: Arena,
    i: int,
) -> bool {
    match a.spec_kind(i) {
        AstKind::ArrowFunctionExpression { has_return_type, .. } => {
            &&& !has_return_type
            &&& !spec_check_arrow_function_with_void(cfg, a, i)
            &&& !spec_is_allowed_function(cfg, a, i)
            &&& !(cfg.allow_typed_function_expressions
                && (spec_is_valid_function_expression_return_type(cfg, a, i)
                    || spec_ancestor_has_return_type(a, i)))
            &&& !spec_returns_const_assertion_directly(cfg, a, i)
            &&& !spec_does_immediately_return_function_expression(cfg, a, i)
        },
        _ => false,
    }
}

/// What the rule emits at node `i`: the primary span of the one diagnostic,
/// or nothing.
pub open spec fn spec_return_type_rule_emits(
    cfg: ExplicitFunctionReturnTypeConfig,
    a: Arena,
    i: int,
) -> Option<Span> {
    match a.spec_kind(i) {
        AstKind::Function { .. } => if spec_function_violation(cfg, a, i) {
            Some(spec_function_violation_span(a, i))
        } else {
            None
        },
        AstKind::ArrowFunctionExpression { .. } => if spec_arrow_violation(cfg, a, i) {
            Some(spec_arrow_violation_span(a, i))
        } else {
            None
        },
        _ => None,
    }
}

/// The fixed shape of this rule's diagnostics around a primary span.
pub open spec fn spec_return_type_diagnostic_matches(d: Diagnostic, sp: Span) -> bool {
    &&& d.rule@ == "explicit-function-return-type"@
    &&& d.severity == Severity::Warning
    &&& d.message@ == "typescript-eslint(explicit-function-return-type):"@
    &&& d.help@ == "help"@
    &&& d.span == sp
    &&& d.secondary@.len() == 0
}

fn explicit_function_return_type_diagnostic(span: Span) -> (d: Diagnostic)
    ensures
        spec_return_type_diagnostic_matches(d, span),
{
    Diagnostic {
        rule: "explicit-function-return-type".to_owned(),
        severity: Severity::Warning,
        message: "typescript-eslint(explicit-function-return-type):".to_owned(),
        help: "help".to_owned(),
        span,
        secondary: Vec::new(),
    }
}

impl ExplicitFunctionReturnType {
    /// Runs the rule on one node: appends exactly one diagnostic when the
    /// node is a function-like violation, and leaves the sink untouched
    /// otherwise.
    pub fn run(&self, a: &Arena, id: NodeId, sink: &mut DiagnosticSink)
        requires
            a.wf(),
            id < a.spec_len(),
        ensures
            match spec_return_type_rule_emits(self.0, *a, id as int) {
                None => final(sink).spec_entries() == old(sink).spec_entries(),
                Some(sp) => final(sink).spec_entries() == old(sink).spec_entries().push(
                    final(sink).spec_entries().last(),
                ) && spec_return_type_diagnostic_matches(final(sink).spec_entries().last(), sp),
            },
    {
        match a.kind(id) {
            AstKind::Function { ftype, has_return_type, .. } => {
                let is_declaration = matches!(ftype, FunctionType::FunctionDeclaration);
                let is_expression = matches!(ftype, FunctionType::FunctionExpression);
                if !is_declaration && !is_expression {
                    return;
                }
                if *has_return_type || is_constructor_or_setter(a, id) {
                    return;
                }
                if self.is_allowed_function(a, id) {
                    return;
                }
                if is_declaration {
                    if self.does_immediately_return_function_expression(a, id) {
                        return;
                    }
                } else {
                    if self.0.allow_typed_function_expressions && (
                    self.is_valid_function_expression_return_type(a, id)
                        || self.ancestor_has_return_type(a, id)) {
                        return;
                    }
                    if self.does_immediately_return_function_expression(a, id) {
                        return;
                    }
                }
                let span = function_violation_span(a, id);
                sink.emit(explicit_function_return_type_diagnostic(span));
            },
            AstKind::ArrowFunctionExpression { has_return_type, .. } => {
                if *has_return_type {
                    return;
                }
                if self.check_arrow_function_with_void(a, id) {
                    return;
                }
                if self.is_allowed_function(a, id) {
                    return;
                }
                if self.0.allow_typed_function_expressions && (
                self.is_valid_function_expression_return_type(a, id)
                    || self.ancestor_has_return_type(a, id)) {
                    return;
                }
                if self.returns_const_assertion_directly(a, id) {
                    return;
                }
                if self.does_immediately_return_function_expression(a, id) {
                    return;
                }
                let span = arrow_violation_span(a, id);
                sink.emit(explicit_function_return_type_diagnostic(span));
            },
            _ => {},
        }
    }
}

/// A function-like node with an explicit return-type annotation is
/// classified exempt, whatever the configuration says.
pub proof fn lemma_explicit_annotation_always_exempt(
    cfg: ExplicitFunctionReturnTypeConfig,
    a: Arena,
    i: int,
)
    requires
        a.wf(),
        0 <= i < a.spec_len(),
        (a.spec_kind(i) matches AstKind::Function { has_return_type: true, .. }) || (a.spec_kind(
            i,
        ) matches AstKind::ArrowFunctionExpression { has_return_type: true, .. }),
    ensures
        spec_return_type_rule_emits(cfg, a, i) is None,
{
}
} // verus!

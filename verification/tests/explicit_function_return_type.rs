use astlint::arena::{Arena, ArenaBuilder};
use astlint::ast::{AstKind, FunctionType, MethodDefinitionKind, PropertyKind};
use astlint::config::ConfigValue;
use astlint::diagnostics::{Diagnostic, DiagnosticSink};
use astlint::return_type::ExplicitFunctionReturnType;
use astlint::span::Span;

fn sp0() -> Span {
    Span::new(0, 0)
}

fn obj(pairs: Vec<(&str, ConfigValue)>) -> ConfigValue {
    ConfigValue::Object(pairs.into_iter().map(|(k, v)| (k.to_string(), v)).collect())
}

fn options(pairs: Vec<(&str, ConfigValue)>) -> ConfigValue {
    ConfigValue::Array(vec![obj(pairs)])
}

fn names(ns: &[&str]) -> ConfigValue {
    ConfigValue::Array(ns.iter().map(|n| ConfigValue::Str(n.to_string())).collect())
}

fn func_decl(name: &str, rt: bool, tp: bool, body: usize) -> AstKind {
    AstKind::Function {
        ftype: FunctionType::FunctionDeclaration,
        name: Some(name.to_string()),
        id_span: sp0(),
        has_return_type: rt,
        has_type_parameters: tp,
        params_span: sp0(),
        body: Some(body),
    }
}

fn func_expr(name: Option<&str>, rt: bool, tp: bool, body: usize) -> AstKind {
    AstKind::Function {
        ftype: FunctionType::FunctionExpression,
        name: name.map(|n| n.to_string()),
        id_span: sp0(),
        has_return_type: rt,
        has_type_parameters: tp,
        params_span: sp0(),
        body: Some(body),
    }
}

fn arrow(expr_body: bool, rt: bool, body: usize) -> AstKind {
    AstKind::ArrowFunctionExpression {
        expression: expr_body,
        has_return_type: rt,
        has_type_parameters: false,
        params_span: sp0(),
        body,
    }
}

fn fbody(stmts: Vec<usize>) -> AstKind {
    AstKind::FunctionBody { statements: stmts }
}

fn ret(arg: Option<usize>) -> AstKind {
    AstKind::ReturnStatement { argument: arg }
}

fn estmt(e: usize) -> AstKind {
    AstKind::ExpressionStatement { expression: e }
}

fn vdecl(name: Option<&str>, typed: bool) -> AstKind {
    AstKind::VariableDeclarator { name: name.map(|n| n.to_string()), has_type_annotation: typed }
}

fn oprop(key: Option<&str>, value: usize) -> AstKind {
    AstKind::ObjectProperty {
        kind: PropertyKind::Init,
        key_name: key.map(|k| k.to_string()),
        value,
    }
}

fn method(kind: MethodDefinitionKind, key: Option<&str>, value: usize) -> AstKind {
    AstKind::MethodDefinition { kind, key_name: key.map(|k| k.to_string()), value }
}

fn pdef(key: Option<&str>, typed: bool) -> AstKind {
    AstKind::PropertyDefinition {
        key_name: key.map(|k| k.to_string()),
        has_type_annotation: typed,
    }
}

fn call(callee: usize) -> AstKind {
    AstKind::CallExpression { callee }
}

fn paren(inner: usize) -> AstKind {
    AstKind::ParenthesizedExpression { expression: inner }
}

fn ts_as(ident: Option<&str>) -> AstKind {
    AstKind::TSAsExpression { type_ident: ident.map(|i| i.to_string()) }
}

fn ts_assert(ident: Option<&str>) -> AstKind {
    AstKind::TSTypeAssertion { type_ident: ident.map(|i| i.to_string()) }
}

fn other() -> AstKind {
    AstKind::Other
}

fn done(b: ArenaBuilder) -> Arena {
    b.finish().expect("test arena should validate")
}

fn diags(a: &Arena, cfg: &ConfigValue) -> Vec<Diagnostic> {
    let rule = ExplicitFunctionReturnType::from_configuration(cfg);
    let mut sink = DiagnosticSink::new();
    let mut id = 0;
    while id < a.len() {
        rule.run(a, id, &mut sink);
        id += 1;
    }
    sink.finalize()
}

fn count(a: &Arena, cfg: &ConfigValue) -> usize {
    diags(a, cfg).len()
}

fn no_options() -> ConfigValue {
    ConfigValue::Array(vec![])
}

/// `var x = <init>;` prelude: Program(0) -> VariableDeclaration(1) ->
/// VariableDeclarator(2); the initializer follows as node 3.
fn open_var(b: &mut ArenaBuilder, name: &str, typed: bool) {
    b.begin(AstKind::Program, sp0());
    b.begin(other(), sp0());
    b.begin(vdecl(Some(name), typed), sp0());
}

#[test]
fn explicit_function_return_type_test() {
    // return;
    {
        let mut b = ArenaBuilder::new();
        b.begin(AstKind::Program, sp0());
        b.leaf(ret(None), sp0());
        b.end();
        assert_eq!(count(&done(b), &no_options()), 0);
    }
    // function test(): void { return; }
    {
        let mut b = ArenaBuilder::new();
        b.begin(AstKind::Program, sp0());
        b.begin(func_decl("test", true, false, 2), sp0());
        b.begin(fbody(vec![3]), sp0());
        b.leaf(ret(None), sp0());
        b.end();
        b.end();
        b.end();
        assert_eq!(count(&done(b), &no_options()), 0);
    }
    // var fn = function (): number { return 1; };
    {
        let mut b = ArenaBuilder::new();
        open_var(&mut b, "fn", false);
        b.begin(func_expr(None, true, false, 4), sp0());
        b.begin(fbody(vec![5]), sp0());
        b.begin(ret(Some(6)), sp0());
        b.leaf(other(), sp0());
        assert_eq!(count(&done(b), &no_options()), 0);
    }
    // var arrowFn = (): string => 'test';
    {
        let mut b = ArenaBuilder::new();
        open_var(&mut b, "arrowFn", false);
        b.begin(arrow(true, true, 4), sp0());
        b.begin(fbody(vec![5]), sp0());
        b.begin(estmt(6), sp0());
        b.leaf(other(), sp0());
        assert_eq!(count(&done(b), &no_options()), 0);
    }
    // class Test { constructor() {} get prop(): number { return 1; }
    //   set prop() {} method(): void { return; } arrow = (): string => 'arrow'; }
    {
        let mut b = ArenaBuilder::new();
        b.begin(AstKind::Program, sp0()); // 0
        b.begin(other(), sp0()); // 1 class
        b.begin(other(), sp0()); // 2 class body
        b.begin(method(MethodDefinitionKind::Constructor, Some("constructor"), 4), sp0()); // 3
        b.begin(func_expr(None, false, false, 5), sp0()); // 4
        b.leaf(fbody(vec![]), sp0()); // 5
        b.end(); // 4
        b.end(); // 3
        b.begin(method(MethodDefinitionKind::Getter, Some("prop"), 7), sp0()); // 6
        b.begin(func_expr(None, true, false, 8), sp0()); // 7
        b.begin(fbody(vec![9]), sp0()); // 8
        b.begin(ret(Some(10)), sp0()); // 9
        b.leaf(other(), sp0()); // 10
        b.end();
        b.end();
        b.end();
        b.end(); // 6
        b.begin(method(MethodDefinitionKind::Setter, Some("prop"), 12), sp0()); // 11
        b.begin(func_expr(None, false, false, 13), sp0()); // 12
        b.leaf(fbody(vec![]), sp0()); // 13
        b.end();
        b.end(); // 11
        b.begin(method(MethodDefinitionKind::Method, Some("method"), 15), sp0()); // 14
        b.begin(func_expr(None, true, false, 16), sp0()); // 15
        b.begin(fbody(vec![17]), sp0()); // 16
        b.leaf(ret(None), sp0()); // 17
        b.end();
        b.end();
        b.end(); // 14
        b.begin(pdef(Some("arrow"), false), sp0()); // 18
        b.begin(arrow(true, true, 20), sp0()); // 19
        b.begin(fbody(vec![21]), sp0()); // 20
        b.begin(estmt(22), sp0()); // 21
        b.leaf(other(), sp0()); // 22
        assert_eq!(count(&done(b), &no_options()), 0);
    }
    let allow_expressions = options(vec![("allowExpressions", ConfigValue::Bool(true))]);
    // fn(() => {});
    {
        let mut b = ArenaBuilder::new();
        b.begin(AstKind::Program, sp0()); // 0
        b.begin(estmt(2), sp0()); // 1
        b.begin(call(3), sp0()); // 2
        b.leaf(other(), sp0()); // 3 callee identifier
        b.begin(AstKind::Argument, sp0()); // 4
        b.begin(arrow(false, false, 6), sp0()); // 5
        b.leaf(fbody(vec![]), sp0()); // 6
        assert_eq!(count(&done(b), &allow_expressions), 0);
    }
    // fn(function () {});
    {
        let mut b = ArenaBuilder::new();
        b.begin(AstKind::Program, sp0());
        b.begin(estmt(2), sp0());
        b.begin(call(3), sp0());
        b.leaf(other(), sp0());
        b.begin(AstKind::Argument, sp0());
        b.begin(func_expr(None, false, false, 6), sp0());
        b.leaf(fbody(vec![]), sp0());
        assert_eq!(count(&done(b), &allow_expressions), 0);
    }
    // [function () {}, () => {}];
    {
        let mut b = ArenaBuilder::new();
        b.begin(AstKind::Program, sp0()); // 0
        b.begin(estmt(2), sp0()); // 1
        b.begin(other(), sp0()); // 2 array expression
        b.begin(func_expr(None, false, false, 4), sp0()); // 3
        b.leaf(fbody(vec![]), sp0()); // 4
        b.end(); // 3
        b.begin(arrow(false, false, 6), sp0()); // 5
        b.leaf(fbody(vec![]), sp0()); // 6
        assert_eq!(count(&done(b), &allow_expressions), 0);
    }
    // (function () {});
    {
        let mut b = ArenaBuilder::new();
        b.begin(AstKind::Program, sp0()); // 0
        b.begin(estmt(2), sp0()); // 1
        b.begin(paren(3), sp0()); // 2
        b.begin(func_expr(None, false, false, 4), sp0()); // 3
        b.leaf(fbody(vec![]), sp0()); // 4
        assert_eq!(count(&done(b), &allow_expressions), 0);
    }
    // (() => {})();
    {
        let mut b = ArenaBuilder::new();
        b.begin(AstKind::Program, sp0()); // 0
        b.begin(estmt(2), sp0()); // 1
        b.begin(call(3), sp0()); // 2
        b.begin(paren(4), Span::new(10, 20)); // 3
        b.begin(arrow(false, false, 5), Span::new(11, 19)); // 4
        b.leaf(fbody(vec![]), sp0()); // 5
        assert_eq!(count(&done(b), &allow_expressions), 0);
    }
    // export default (): void => {};
    {
        let mut b = ArenaBuilder::new();
        b.begin(AstKind::Program, sp0()); // 0
        b.begin(AstKind::ExportDefaultDeclaration, sp0()); // 1
        b.begin(arrow(false, true, 3), sp0()); // 2
        b.leaf(fbody(vec![]), sp0()); // 3
        assert_eq!(count(&done(b), &allow_expressions), 0);
    }
    let allow_typed = options(vec![("allowTypedFunctionExpressions", ConfigValue::Bool(true))]);
    // var arrowFn: Foo = () => 'test';
    {
        let mut b = ArenaBuilder::new();
        open_var(&mut b, "arrowFn", true);
        b.begin(arrow(true, false, 4), sp0()); // 3
        b.begin(fbody(vec![5]), sp0()); // 4
        b.begin(estmt(6), sp0()); // 5
        b.leaf(other(), sp0()); // 6
        assert_eq!(count(&done(b), &allow_typed), 0);
    }
    // var funcExpr: Foo = function () { return 'test'; };
    {
        let mut b = ArenaBuilder::new();
        open_var(&mut b, "funcExpr", true);
        b.begin(func_expr(None, false, false, 4), sp0()); // 3
        b.begin(fbody(vec![5]), sp0()); // 4
        b.begin(ret(Some(6)), sp0()); // 5
        b.leaf(other(), sp0()); // 6
        assert_eq!(count(&done(b), &allow_typed), 0);
    }
    // const x = (() => {}) as Foo;
    {
        let mut b = ArenaBuilder::new();
        open_var(&mut b, "x", false);
        b.begin(ts_as(Some("Foo")), sp0()); // 3
        b.begin(paren(5), sp0()); // 4
        b.begin(arrow(false, false, 6), sp0()); // 5
        b.leaf(fbody(vec![]), sp0()); // 6
        assert_eq!(count(&done(b), &allow_typed), 0);
    }
    // const x = <Foo>(() => {});
    {
        let mut b = ArenaBuilder::new();
        open_var(&mut b, "x", false);
        b.begin(ts_assert(Some("Foo")), sp0()); // 3
        b.begin(paren(5), sp0()); // 4
        b.begin(arrow(false, false, 6), sp0()); // 5
        b.leaf(fbody(vec![]), sp0()); // 6
        assert_eq!(count(&done(b), &allow_typed), 0);
    }
    // const x = { foo: () => {} } as Foo;
    {
        let mut b = ArenaBuilder::new();
        open_var(&mut b, "x", false);
        b.begin(ts_as(Some("Foo")), sp0()); // 3
        b.begin(AstKind::ObjectExpression, sp0()); // 4
        b.begin(oprop(Some("foo"), 6), sp0()); // 5
        b.begin(arrow(false, false, 7), sp0()); // 6
        b.leaf(fbody(vec![]), sp0()); // 7
        assert_eq!(count(&done(b), &allow_typed), 0);
    }
    // const x = <Foo>{ foo: () => {} };
    {
        let mut b = ArenaBuilder::new();
        open_var(&mut b, "x", false);
        b.begin(ts_assert(Some("Foo")), sp0()); // 3
        b.begin(AstKind::ObjectExpression, sp0()); // 4
        b.begin(oprop(Some("foo"), 6), sp0()); // 5
        b.begin(arrow(false, false, 7), sp0()); // 6
        b.leaf(fbody(vec![]), sp0()); // 7
        assert_eq!(count(&done(b), &allow_typed), 0);
    }
    // const x: Foo = { foo: () => {} };
    {
        let mut b = ArenaBuilder::new();
        open_var(&mut b, "x", true);
        b.begin(AstKind::ObjectExpression, sp0()); // 3
        b.begin(oprop(Some("foo"), 5), sp0()); // 4
        b.begin(arrow(false, false, 6), sp0()); // 5
        b.leaf(fbody(vec![]), sp0()); // 6
        assert_eq!(count(&done(b), &allow_typed), 0);
    }
    // const x = { foo: { bar: () => {} } } as Foo;
    {
        let mut b = ArenaBuilder::new();
        open_var(&mut b, "x", false);
        b.begin(ts_as(Some("Foo")), sp0()); // 3
        b.begin(AstKind::ObjectExpression, sp0()); // 4
        b.begin(oprop(Some("foo"), 6), sp0()); // 5
        b.begin(AstKind::ObjectExpression, sp0()); // 6
        b.begin(oprop(Some("bar"), 8), sp0()); // 7
        b.begin(arrow(false, false, 9), sp0()); // 8
        b.leaf(fbody(vec![]), sp0()); // 9
        assert_eq!(count(&done(b), &allow_typed), 0);
    }
    // const x = <Foo>{ foo: { bar: () => {} } };
    {
        let mut b = ArenaBuilder::new();
        open_var(&mut b, "x", false);
        b.begin(ts_assert(Some("Foo")), sp0()); // 3
        b.begin(AstKind::ObjectExpression, sp0()); // 4
        b.begin(oprop(Some("foo"), 6), sp0()); // 5
        b.begin(AstKind::ObjectExpression, sp0()); // 6
        b.begin(oprop(Some("bar"), 8), sp0()); // 7
        b.begin(arrow(false, false, 9), sp0()); // 8
        b.leaf(fbody(vec![]), sp0()); // 9
        assert_eq!(count(&done(b), &allow_typed), 0);
    }
    // const x: Foo = { foo: { bar: () => {} } };
    {
        let mut b = ArenaBuilder::new();
        open_var(&mut b, "x", true);
        b.begin(AstKind::ObjectExpression, sp0()); // 3
        b.begin(oprop(Some("foo"), 5), sp0()); // 4
        b.begin(AstKind::ObjectExpression, sp0()); // 5
        b.begin(oprop(Some("bar"), 7), sp0()); // 6
        b.begin(arrow(false, false, 8), sp0()); // 7
        b.leaf(fbody(vec![]), sp0()); // 8
        assert_eq!(count(&done(b), &allow_typed), 0);
    }
    // type MethodType = () => void; class App { private method: MethodType = () => {}; }
    {
        let mut b = ArenaBuilder::new();
        b.begin(AstKind::Program, sp0()); // 0
        b.leaf(other(), sp0()); // 1 type alias
        b.begin(other(), sp0()); // 2 class
        b.begin(other(), sp0()); // 3 class body
        b.begin(pdef(Some("method"), true), sp0()); // 4
        b.begin(arrow(false, false, 6), sp0()); // 5
        b.leaf(fbody(vec![]), sp0()); // 6
        assert_eq!(count(&done(b), &allow_typed), 0);
    }
    // const foo = <button onClick={() => {}} />;
    {
        let mut b = ArenaBuilder::new();
        open_var(&mut b, "foo", false);
        b.begin(other(), sp0()); // 3 JSX element
        b.begin(AstKind::JSXOpeningElement { name: Some("button".to_string()), attributes: vec![] }, sp0()); // 4
        b.begin(other(), sp0()); // 5 attribute item
        b.begin(AstKind::JSXExpressionContainer, sp0()); // 6
        b.begin(arrow(false, false, 8), sp0()); // 7
        b.leaf(fbody(vec![]), sp0()); // 8
        assert_eq!(count(&done(b), &allow_typed), 0);
    }
    // const foo = <button on={{ click: () => {} }} />;
    {
        let mut b = ArenaBuilder::new();
        open_var(&mut b, "foo", false);
        b.begin(other(), sp0()); // 3
        b.begin(AstKind::JSXOpeningElement { name: Some("button".to_string()), attributes: vec![] }, sp0()); // 4
        b.begin(other(), sp0()); // 5
        b.begin(AstKind::JSXExpressionContainer, sp0()); // 6
        b.begin(AstKind::ObjectExpression, sp0()); // 7
        b.begin(oprop(Some("click"), 9), sp0()); // 8
        b.begin(arrow(false, false, 10), sp0()); // 9
        b.leaf(fbody(vec![]), sp0()); // 10
        assert_eq!(count(&done(b), &allow_typed), 0);
    }
    // const foo = <Bar>{() => {}}</Bar>;
    {
        let mut b = ArenaBuilder::new();
        open_var(&mut b, "foo", false);
        b.begin(other(), sp0()); // 3 JSX element
        b.begin(AstKind::JSXExpressionContainer, sp0()); // 4
        b.begin(arrow(false, false, 6), sp0()); // 5
        b.leaf(fbody(vec![]), sp0()); // 6
        assert_eq!(count(&done(b), &allow_typed), 0);
    }
    // const foo = <Bar>{{ on: () => {} }}</Bar>;
    {
        let mut b = ArenaBuilder::new();
        open_var(&mut b, "foo", false);
        b.begin(other(), sp0()); // 3
        b.begin(AstKind::JSXExpressionContainer, sp0()); // 4
        b.begin(AstKind::ObjectExpression, sp0()); // 5
        b.begin(oprop(Some("on"), 7), sp0()); // 6
        b.begin(arrow(false, false, 8), sp0()); // 7
        b.leaf(fbody(vec![]), sp0()); // 8
        assert_eq!(count(&done(b), &allow_typed), 0);
    }
    // const foo = <button {...{ onClick: () => {} }} />;
    {
        let mut b = ArenaBuilder::new();
        open_var(&mut b, "foo", false);
        b.begin(other(), sp0()); // 3
        b.begin(AstKind::JSXOpeningElement { name: Some("button".to_string()), attributes: vec![] }, sp0()); // 4
        b.begin(AstKind::JSXSpreadAttribute, sp0()); // 5
        b.begin(AstKind::ObjectExpression, sp0()); // 6
        b.begin(oprop(Some("onClick"), 8), sp0()); // 7
        b.begin(arrow(false, false, 9), sp0()); // 8
        b.leaf(fbody(vec![]), sp0()); // 9
        assert_eq!(count(&done(b), &allow_typed), 0);
    }
    // const myObj = { set myProp(val) { this.myProp = val; } };
    {
        let mut b = ArenaBuilder::new();
        open_var(&mut b, "myObj", false);
        b.begin(AstKind::ObjectExpression, sp0()); // 3
        b.begin(
            AstKind::ObjectProperty {
                kind: PropertyKind::Setter,
                key_name: Some("myProp".to_string()),
                value: 5,
            },
            sp0(),
        ); // 4
        b.begin(func_expr(None, false, false, 6), sp0()); // 5
        b.begin(fbody(vec![7]), sp0()); // 6
        b.leaf(other(), sp0()); // 7 assignment statement
        assert_eq!(count(&done(b), &no_options()), 0);
    }
    let allow_higher = options(vec![("allowHigherOrderFunctions", ConfigValue::Bool(true))]);
    // () => (): void => {};
    {
        let mut b = ArenaBuilder::new();
        b.begin(AstKind::Program, sp0()); // 0
        b.begin(estmt(2), sp0()); // 1
        b.begin(arrow(true, false, 3), sp0()); // 2
        b.begin(fbody(vec![4]), sp0()); // 3
        b.begin(estmt(5), sp0()); // 4
        b.begin(arrow(false, true, 6), sp0()); // 5
        b.leaf(fbody(vec![]), sp0()); // 6
        assert_eq!(count(&done(b), &allow_higher), 0);
    }
    // () => function (): void {};
    {
        let mut b = ArenaBuilder::new();
        b.begin(AstKind::Program, sp0()); // 0
        b.begin(estmt(2), sp0()); // 1
        b.begin(arrow(true, false, 3), sp0()); // 2
        b.begin(fbody(vec![4]), sp0()); // 3
        b.begin(estmt(5), sp0()); // 4
        b.begin(func_expr(None, true, false, 6), sp0()); // 5
        b.leaf(fbody(vec![]), sp0()); // 6
        assert_eq!(count(&done(b), &allow_higher), 0);
    }
    // () => { return (): void => {}; };
    {
        let mut b = ArenaBuilder::new();
        b.begin(AstKind::Program, sp0()); // 0
        b.begin(estmt(2), sp0()); // 1
        b.begin(arrow(false, false, 3), sp0()); // 2
        b.begin(fbody(vec![4]), sp0()); // 3
        b.begin(ret(Some(5)), sp0()); // 4
        b.begin(arrow(false, true, 6), sp0()); // 5
        b.leaf(fbody(vec![]), sp0()); // 6
        assert_eq!(count(&done(b), &allow_higher), 0);
    }
    // () => { return function (): void {}; };
    {
        let mut b = ArenaBuilder::new();
        b.begin(AstKind::Program, sp0()); // 0
        b.begin(estmt(2), sp0()); // 1
        b.begin(arrow(false, false, 3), sp0()); // 2
        b.begin(fbody(vec![4]), sp0()); // 3
        b.begin(ret(Some(5)), sp0()); // 4
        b.begin(func_expr(None, true, false, 6), sp0()); // 5
        b.leaf(fbody(vec![]), sp0()); // 6
        assert_eq!(count(&done(b), &allow_higher), 0);
    }
    // () => { const foo = 'foo'; return function (): string { return foo; }; };
    {
        let mut b = ArenaBuilder::new();
        b.begin(AstKind::Program, sp0()); // 0
        b.begin(estmt(2), sp0()); // 1
        b.begin(arrow(false, false, 3), sp0()); // 2
        b.begin(fbody(vec![4, 5]), sp0()); // 3
        b.leaf(other(), sp0()); // 4 const foo = 'foo';
        b.begin(ret(Some(6)), sp0()); // 5
        b.begin(func_expr(None, true, false, 7), sp0()); // 6
        b.begin(fbody(vec![8]), sp0()); // 7
        b.begin(ret(Some(9)), sp0()); // 8
        b.leaf(other(), sp0()); // 9
        assert_eq!(count(&done(b), &allow_higher), 0);
    }
    // function fn() { return (): void => {}; }
    {
        let mut b = ArenaBuilder::new();
        b.begin(AstKind::Program, sp0()); // 0
        b.begin(func_decl("fn", false, false, 2), sp0()); // 1
        b.begin(fbody(vec![3]), sp0()); // 2
        b.begin(ret(Some(4)), sp0()); // 3
        b.begin(arrow(false, true, 5), sp0()); // 4
        b.leaf(fbody(vec![]), sp0()); // 5
        assert_eq!(count(&done(b), &allow_higher), 0);
    }
    // function fn() { return function (): void {}; }
    {
        let mut b = ArenaBuilder::new();
        b.begin(AstKind::Program, sp0()); // 0
        b.begin(func_decl("fn", false, false, 2), sp0()); // 1
        b.begin(fbody(vec![3]), sp0()); // 2
        b.begin(ret(Some(4)), sp0()); // 3
        b.begin(func_expr(None, true, false, 5), sp0()); // 4
        b.leaf(fbody(vec![]), sp0()); // 5
        assert_eq!(count(&done(b), &allow_higher), 0);
    }
    // function fn() { const bar = () => (): number => 1; return function (): void {}; }
    {
        let mut b = ArenaBuilder::new();
        b.begin(AstKind::Program, sp0()); // 0
        b.begin(func_decl("fn", false, false, 2), sp0()); // 1
        b.begin(fbody(vec![3, 12]), sp0()); // 2
        b.begin(other(), sp0()); // 3 const declaration
        b.begin(vdecl(Some("bar"), false), sp0()); // 4
        b.begin(arrow(true, false, 6), sp0()); // 5
        b.begin(fbody(vec![7]), sp0()); // 6
        b.begin(estmt(8), sp0()); // 7
        b.begin(arrow(true, true, 9), sp0()); // 8
        b.begin(fbody(vec![10]), sp0()); // 9
        b.begin(estmt(11), sp0()); // 10
        b.leaf(other(), sp0()); // 11
        b.end(); // 10
        b.end(); // 9
        b.end(); // 8
        b.end(); // 7
        b.end(); // 6
        b.end(); // 5
        b.end(); // 4
        b.end(); // 3
        b.begin(ret(Some(13)), sp0()); // 12
        b.begin(func_expr(None, true, false, 14), sp0()); // 13
        b.leaf(fbody(vec![]), sp0()); // 14
        assert_eq!(count(&done(b), &allow_higher), 0);
    }
    // function fn(arg: boolean) {
    //   if (arg) { return () => (): number => 1; }
    //   else { return function (): string { return 'foo'; }; }
    //   return function (): void {};
    // }
    {
        let mut b = ArenaBuilder::new();
        b.begin(AstKind::Program, sp0()); // 0
        b.begin(func_decl("fn", false, false, 2), sp0()); // 1
        b.begin(fbody(vec![3, 19]), sp0()); // 2
        b.begin(AstKind::IfStatement { consequent: 4, alternate: Some(13) }, sp0()); // 3
        b.begin(AstKind::BlockStatement { statements: vec![5] }, sp0()); // 4
        b.begin(ret(Some(6)), sp0()); // 5
        b.begin(arrow(true, false, 7), sp0()); // 6
        b.begin(fbody(vec![8]), sp0()); // 7
        b.begin(estmt(9), sp0()); // 8
        b.begin(arrow(true, true, 10), sp0()); // 9
        b.begin(fbody(vec![11]), sp0()); // 10
        b.begin(estmt(12), sp0()); // 11
        b.leaf(other(), sp0()); // 12
        b.end();
        b.end();
        b.end();
        b.end();
        b.end();
        b.end();
        b.end(); // close 4
        b.begin(AstKind::BlockStatement { statements: vec![14] }, sp0()); // 13
        b.begin(ret(Some(15)), sp0()); // 14
        b.begin(func_expr(None, true, false, 16), sp0()); // 15
        b.begin(fbody(vec![17]), sp0()); // 16
        b.begin(ret(Some(18)), sp0()); // 17
        b.leaf(other(), sp0()); // 18
        b.end();
        b.end();
        b.end();
        b.end();
        b.end(); // close 13
        b.end(); // close 3
        b.begin(ret(Some(20)), sp0()); // 19
        b.begin(func_expr(None, true, false, 21), sp0()); // 20
        b.leaf(fbody(vec![]), sp0()); // 21
        assert_eq!(count(&done(b), &allow_higher), 0);
    }
    // function FunctionDeclaration() { return function FE_Within_FD() {
    //   return function FE_Within_FE() { return () => { return () => (): number => 1; }; }; }; }
    {
        let mut b = ArenaBuilder::new();
        b.begin(AstKind::Program, sp0()); // 0
        b.begin(func_decl("FunctionDeclaration", false, false, 2), sp0()); // 1
        b.begin(fbody(vec![3]), sp0()); // 2
        b.begin(ret(Some(4)), sp0()); // 3
        b.begin(func_expr(Some("FE1"), false, false, 5), sp0()); // 4
        b.begin(fbody(vec![6]), sp0()); // 5
        b.begin(ret(Some(7)), sp0()); // 6
        b.begin(func_expr(Some("FE2"), false, false, 8), sp0()); // 7
        b.begin(fbody(vec![9]), sp0()); // 8
        b.begin(ret(Some(10)), sp0()); // 9
        b.begin(arrow(false, false, 11), sp0()); // 10
        b.begin(fbody(vec![12]), sp0()); // 11
        b.begin(ret(Some(13)), sp0()); // 12
        b.begin(arrow(true, false, 14), sp0()); // 13
        b.begin(fbody(vec![15]), sp0()); // 14
        b.begin(estmt(16), sp0()); // 15
        b.begin(arrow(true, true, 17), sp0()); // 16
        b.begin(fbody(vec![18]), sp0()); // 17
        b.begin(estmt(19), sp0()); // 18
        b.leaf(other(), sp0()); // 19
        assert_eq!(count(&done(b), &allow_higher), 0);
    }
    // () => () => { return (): void => { return; }; };
    {
        let mut b = ArenaBuilder::new();
        b.begin(AstKind::Program, sp0()); // 0
        b.begin(estmt(2), sp0()); // 1
        b.begin(arrow(true, false, 3), sp0()); // 2
        b.begin(fbody(vec![4]), sp0()); // 3
        b.begin(estmt(5), sp0()); // 4
        b.begin(arrow(false, false, 6), sp0()); // 5
        b.begin(fbody(vec![7]), sp0()); // 6
        b.begin(ret(Some(8)), sp0()); // 7
        b.begin(arrow(false, true, 9), sp0()); // 8
        b.begin(fbody(vec![10]), sp0()); // 9
        b.leaf(ret(None), sp0()); // 10
        assert_eq!(count(&done(b), &allow_higher), 0);
    }
    // declare function foo(arg: () => void): void;
    // foo(() => 1); foo(() => {}); foo(() => null); foo(() => true); foo(() => '');
    {
        let mut b = ArenaBuilder::new();
        b.begin(AstKind::Program, sp0()); // 0
        b.leaf(other(), sp0()); // 1 declare
        for k in 0..5usize {
            let base = 2 + k * 8;
            b.begin(estmt(base + 1), sp0()); // base
            b.begin(call(base + 2), sp0()); // base+1
            b.leaf(other(), sp0()); // base+2 callee foo
            b.begin(AstKind::Argument, sp0()); // base+3
            b.begin(arrow(true, false, base + 5), sp0()); // base+4
            b.begin(fbody(vec![base + 6]), sp0()); // base+5
            b.begin(estmt(base + 7), sp0()); // base+6
            b.leaf(other(), sp0()); // base+7
            b.end();
            b.end();
            b.end();
            b.end();
            b.end();
            b.end();
        }
        b.end();
        assert_eq!(count(&done(b), &allow_typed), 0);
    }
    // declare function foo(arg: () => void): void; foo?.(() => 1); foo?.bar(() => {}); ...
    {
        let mut b = ArenaBuilder::new();
        b.begin(AstKind::Program, sp0()); // 0
        b.leaf(other(), sp0()); // 1
        for k in 0..5usize {
            let base = 2 + k * 8;
            b.begin(estmt(base + 1), sp0());
            b.begin(call(base + 2), sp0());
            b.leaf(other(), sp0()); // member / optional callee
            b.begin(AstKind::Argument, sp0());
            b.begin(arrow(true, false, base + 5), sp0());
            b.begin(fbody(vec![base + 6]), sp0());
            b.begin(estmt(base + 7), sp0());
            b.leaf(other(), sp0());
            b.end();
            b.end();
            b.end();
            b.end();
            b.end();
            b.end();
        }
        b.end();
        assert_eq!(count(&done(b), &allow_typed), 0);
    }
    // class Accumulator { private count: number = 0;
    //   public accumulate(fn: () => number): void { this.count += fn(); } }
    // new Accumulator().accumulate(() => 1);
    {
        let mut b = ArenaBuilder::new();
        b.begin(AstKind::Program, sp0()); // 0
        b.begin(other(), sp0()); // 1 class
        b.begin(other(), sp0()); // 2 class body
        b.begin(pdef(Some("count"), true), sp0()); // 3
        b.leaf(other(), sp0()); // 4 initializer 0
        b.end(); // 3
        b.begin(method(MethodDefinitionKind::Method, Some("accumulate"), 6), sp0()); // 5
        b.begin(func_expr(None, true, false, 7), sp0()); // 6
        b.begin(fbody(vec![8]), sp0()); // 7
        b.leaf(other(), sp0()); // 8
        b.end();
        b.end();
        b.end(); // 5
        b.end(); // 2
        b.end(); // 1
        b.begin(estmt(10), sp0()); // 9
        b.begin(call(11), sp0()); // 10
        b.leaf(other(), sp0()); // 11 member callee
        b.begin(AstKind::Argument, sp0()); // 12
        b.begin(arrow(true, false, 14), sp0()); // 13
        b.begin(fbody(vec![15]), sp0()); // 14
        b.begin(estmt(16), sp0()); // 15
        b.leaf(other(), sp0()); // 16
        assert_eq!(count(&done(b), &allow_typed), 0);
    }
    // declare function foo(arg: { meth: () => number }): void;
    // foo({ meth() { return 1; } }); foo({ meth: function () { return 1; } });
    // foo({ meth: () => { return 1; } });
    {
        let mut b = ArenaBuilder::new();
        b.begin(AstKind::Program, sp0()); // 0
        b.leaf(other(), sp0()); // 1
        for k in 0..3usize {
            let base = 2 + k * 10;
            b.begin(estmt(base + 1), sp0()); // base
            b.begin(call(base + 2), sp0()); // base+1
            b.leaf(other(), sp0()); // base+2 callee
            b.begin(AstKind::Argument, sp0()); // base+3
            b.begin(AstKind::ObjectExpression, sp0()); // base+4
            b.begin(oprop(Some("meth"), base + 6), sp0()); // base+5
            if k == 1 {
                b.begin(func_expr(None, false, false, base + 7), sp0()); // base+6
            } else if k == 0 {
                b.begin(func_expr(None, false, false, base + 7), sp0()); // base+6 shorthand method
            } else {
                b.begin(arrow(false, false, base + 7), sp0()); // base+6
            }
            b.begin(fbody(vec![base + 8]), sp0()); // base+7
            b.begin(ret(Some(base + 9)), sp0()); // base+8
            b.leaf(other(), sp0()); // base+9
            b.end();
            b.end();
            b.end();
            b.end();
            b.end();
            b.end();
            b.end();
            b.end();
        }
        b.end();
        assert_eq!(count(&done(b), &allow_typed), 0);
    }
    let allow_const = options(vec![(
        "allowDirectConstAssertionInArrowFunctions",
        ConfigValue::Bool(true),
    )]);
    // const func1 = (value) => ({...}) as const; const func2 ... as const;
    // const func3 = (value) => x as const; const func4 = (value) => x as const;
    {
        for _ in 0..2 {
            // object body form
            let mut b = ArenaBuilder::new();
            open_var(&mut b, "func1", false);
            b.begin(arrow(true, false, 4), sp0()); // 3
            b.begin(fbody(vec![5]), sp0()); // 4
            b.begin(estmt(6), sp0()); // 5
            b.begin(ts_as(Some("const")), sp0()); // 6
            b.begin(paren(8), sp0()); // 7
            b.leaf(AstKind::ObjectExpression, sp0()); // 8
            assert_eq!(count(&done(b), &allow_const), 0);
        }
        for _ in 0..2 {
            // identifier body form
            let mut b = ArenaBuilder::new();
            open_var(&mut b, "func3", false);
            b.begin(arrow(true, false, 4), sp0()); // 3
            b.begin(fbody(vec![5]), sp0()); // 4
            b.begin(estmt(6), sp0()); // 5
            b.begin(ts_as(Some("const")), sp0()); // 6
            b.leaf(other(), sp0()); // 7 identifier x
            assert_eq!(count(&done(b), &allow_const), 0);
        }
    }
    // new Promise(resolve => {}); new Foo(1, () => {});
    {
        let mut b = ArenaBuilder::new();
        b.begin(AstKind::Program, sp0()); // 0
        b.begin(estmt(2), sp0()); // 1
        b.begin(AstKind::NewExpression, sp0()); // 2
        b.leaf(other(), sp0()); // 3 callee Promise
        b.begin(AstKind::Argument, sp0()); // 4
        b.begin(arrow(false, false, 6), sp0()); // 5
        b.leaf(fbody(vec![]), sp0()); // 6
        b.end();
        b.end();
        b.end();
        b.end(); // close 1
        b.begin(estmt(8), sp0()); // 7
        b.begin(AstKind::NewExpression, sp0()); // 8
        b.leaf(other(), sp0()); // 9 callee Foo
        b.begin(AstKind::Argument, sp0()); // 10
        b.leaf(other(), sp0()); // 11 literal 1
        b.end(); // 10
        b.begin(AstKind::Argument, sp0()); // 12
        b.begin(arrow(false, false, 14), sp0()); // 13
        b.leaf(fbody(vec![]), sp0()); // 14
        assert_eq!(count(&done(b), &allow_typed), 0);
    }
    // const log = (message: string) => void console.log(message);
    {
        let cfg = options(vec![(
            "allowConciseArrowFunctionExpressionsStartingWithVoid",
            ConfigValue::Bool(true),
        )]);
        let mut b = ArenaBuilder::new();
        open_var(&mut b, "log", false);
        b.begin(arrow(true, false, 4), sp0()); // 3
        b.begin(fbody(vec![5]), sp0()); // 4
        b.begin(estmt(6), sp0()); // 5
        b.begin(AstKind::UnaryExpression { is_void: true }, sp0()); // 6
        b.leaf(other(), sp0()); // 7 the call
        assert_eq!(count(&done(b), &cfg), 0);
    }
    let allow_no_tp = options(vec![(
        "allowFunctionsWithoutTypeParameters",
        ConfigValue::Bool(true),
    )]);
    // const log = (a: string) => a;
    {
        let mut b = ArenaBuilder::new();
        open_var(&mut b, "log", false);
        b.begin(arrow(true, false, 4), sp0()); // 3
        b.begin(fbody(vec![5]), sp0()); // 4
        b.begin(estmt(6), sp0()); // 5
        b.leaf(other(), sp0()); // 6
        assert_eq!(count(&done(b), &allow_no_tp), 0);
    }
    // const log = <A,>(a: A): A => a;
    {
        let mut b = ArenaBuilder::new();
        open_var(&mut b, "log", false);
        b.begin(
            AstKind::ArrowFunctionExpression {
                expression: true,
                has_return_type: true,
                has_type_parameters: true,
                params_span: sp0(),
                body: 4,
            },
            sp0(),
        ); // 3
        b.begin(fbody(vec![5]), sp0()); // 4
        b.begin(estmt(6), sp0()); // 5
        b.leaf(other(), sp0()); // 6
        assert_eq!(count(&done(b), &allow_no_tp), 0);
    }
    // function log<A>(a: A): A { return a; }
    {
        let mut b = ArenaBuilder::new();
        b.begin(AstKind::Program, sp0()); // 0
        b.begin(func_decl("log", true, true, 2), sp0()); // 1
        b.begin(fbody(vec![3]), sp0()); // 2
        b.begin(ret(Some(4)), sp0()); // 3
        b.leaf(other(), sp0()); // 4
        assert_eq!(count(&done(b), &allow_no_tp), 0);
    }
    // function log(a: string) { return a; }
    {
        let mut b = ArenaBuilder::new();
        b.begin(AstKind::Program, sp0()); // 0
        b.begin(func_decl("log", false, false, 2), sp0()); // 1
        b.begin(fbody(vec![3]), sp0()); // 2
        b.begin(ret(Some(4)), sp0()); // 3
        b.leaf(other(), sp0()); // 4
        assert_eq!(count(&done(b), &allow_no_tp), 0);
    }
    // const log = function <A>(a: A): A { return a; };
    {
        let mut b = ArenaBuilder::new();
        open_var(&mut b, "log", false);
        b.begin(func_expr(None, true, true, 4), sp0()); // 3
        b.begin(fbody(vec![5]), sp0()); // 4
        b.begin(ret(Some(6)), sp0()); // 5
        b.leaf(other(), sp0()); // 6
        assert_eq!(count(&done(b), &allow_no_tp), 0);
    }
    // const log = function (a: A): string { return a; };
    {
        let mut b = ArenaBuilder::new();
        open_var(&mut b, "log", false);
        b.begin(func_expr(None, true, false, 4), sp0()); // 3
        b.begin(fbody(vec![5]), sp0()); // 4
        b.begin(ret(Some(6)), sp0()); // 5
        b.leaf(other(), sp0()); // 6
        assert_eq!(count(&done(b), &allow_no_tp), 0);
    }
    let allowed_test12 = options(vec![("allowedNames", names(&["test1", "test2"]))]);
    // function test1() { return; } const foo = function test2() { return; };
    {
        let mut b = ArenaBuilder::new();
        b.begin(AstKind::Program, sp0()); // 0
        b.begin(func_decl("test1", false, false, 2), sp0()); // 1
        b.begin(fbody(vec![3]), sp0()); // 2
        b.leaf(ret(None), sp0()); // 3
        b.end();
        b.end(); // close 1
        b.begin(other(), sp0()); // 4 const declaration
        b.begin(vdecl(Some("foo"), false), sp0()); // 5
        b.begin(func_expr(Some("test2"), false, false, 7), sp0()); // 6
        b.begin(fbody(vec![8]), sp0()); // 7
        b.leaf(ret(None), sp0()); // 8
        assert_eq!(count(&done(b), &allowed_test12), 0);
    }
    // const test1 = function () { return; };
    // const foo = function () { return function test2() {}; };
    // `test1` is allowed through its declarator; the named `test2` is allowed
    // directly. The anonymous function bound to `foo` reports: the
    // higher-order exemption is off by default, and `foo` is not allowed.
    {
        let mut b = ArenaBuilder::new();
        b.begin(AstKind::Program, sp0()); // 0
        b.begin(other(), sp0()); // 1
        b.begin(vdecl(Some("test1"), false), sp0()); // 2
        b.begin(func_expr(None, false, false, 4), sp0()); // 3
        b.begin(fbody(vec![5]), sp0()); // 4
        b.leaf(ret(None), sp0()); // 5
        b.end();
        b.end();
        b.end();
        b.end(); // close 1
        b.begin(other(), sp0()); // 6
        b.begin(vdecl(Some("foo"), false), sp0()); // 7
        b.begin(func_expr(None, false, false, 9), sp0()); // 8
        b.begin(fbody(vec![10]), sp0()); // 9
        b.begin(ret(Some(11)), sp0()); // 10
        b.begin(func_expr(Some("test2"), false, false, 12), sp0()); // 11
        b.leaf(fbody(vec![]), sp0()); // 12
        assert_eq!(count(&done(b), &allowed_test12), 1);
    }
    // const test1 = () => { return; }; export const foo = { test2() { return 0; } };
    {
        let mut b = ArenaBuilder::new();
        b.begin(AstKind::Program, sp0()); // 0
        b.begin(other(), sp0()); // 1
        b.begin(vdecl(Some("test1"), false), sp0()); // 2
        b.begin(arrow(false, false, 4), sp0()); // 3
        b.begin(fbody(vec![5]), sp0()); // 4
        b.leaf(ret(None), sp0()); // 5
        b.end();
        b.end();
        b.end();
        b.end(); // close 1
        b.begin(other(), sp0()); // 6 export + declaration
        b.begin(vdecl(Some("foo"), false), sp0()); // 7
        b.begin(AstKind::ObjectExpression, sp0()); // 8
        b.begin(oprop(Some("test2"), 10), sp0()); // 9
        b.begin(func_expr(None, false, false, 11), sp0()); // 10
        b.begin(fbody(vec![12]), sp0()); // 11
        b.begin(ret(Some(13)), sp0()); // 12
        b.leaf(other(), sp0()); // 13
        assert_eq!(count(&done(b), &allowed_test12), 0);
    }
    // class Test { constructor() {} get prop() { return 1; } set prop() {}
    //   method() { return; } arrow = () => 'arrow'; private method() { return; } }
    {
        let cfg = options(vec![("allowedNames", names(&["prop", "method", "arrow"]))]);
        let mut b = ArenaBuilder::new();
        b.begin(AstKind::Program, sp0()); // 0
        b.begin(other(), sp0()); // 1 class
        b.begin(other(), sp0()); // 2 class body
        b.begin(method(MethodDefinitionKind::Constructor, Some("constructor"), 4), sp0()); // 3
        b.begin(func_expr(None, false, false, 5), sp0()); // 4
        b.leaf(fbody(vec![]), sp0()); // 5
        b.end();
        b.end(); // close 3
        b.begin(method(MethodDefinitionKind::Getter, Some("prop"), 7), sp0()); // 6
        b.begin(func_expr(None, false, false, 8), sp0()); // 7
        b.begin(fbody(vec![9]), sp0()); // 8
        b.begin(ret(Some(10)), sp0()); // 9
        b.leaf(other(), sp0()); // 10
        b.end();
        b.end();
        b.end();
        b.end(); // close 6
        b.begin(method(MethodDefinitionKind::Setter, Some("prop"), 12), sp0()); // 11
        b.begin(func_expr(None, false, false, 13), sp0()); // 12
        b.leaf(fbody(vec![]), sp0()); // 13
        b.end();
        b.end(); // close 11
        b.begin(method(MethodDefinitionKind::Method, Some("method"), 15), sp0()); // 14
        b.begin(func_expr(None, false, false, 16), sp0()); // 15
        b.begin(fbody(vec![17]), sp0()); // 16
        b.leaf(ret(None), sp0()); // 17
        b.end();
        b.end();
        b.end(); // close 14
        b.begin(pdef(Some("arrow"), false), sp0()); // 18
        b.begin(arrow(true, false, 20), sp0()); // 19
        b.begin(fbody(vec![21]), sp0()); // 20
        b.begin(estmt(22), sp0()); // 21
        b.leaf(other(), sp0()); // 22
        b.end();
        b.end();
        b.end();
        b.end(); // close 18
        b.begin(method(MethodDefinitionKind::Method, Some("method"), 24), sp0()); // 23
        b.begin(func_expr(None, false, false, 25), sp0()); // 24
        b.begin(fbody(vec![26]), sp0()); // 25
        b.leaf(ret(None), sp0()); // 26
        assert_eq!(count(&done(b), &cfg), 0);
    }
    // const x = { arrowFn: () => { return; }, fn: function () { return; } };
    {
        let cfg = options(vec![("allowedNames", names(&["arrowFn", "fn"]))]);
        let mut b = ArenaBuilder::new();
        open_var(&mut b, "x", false);
        b.begin(AstKind::ObjectExpression, sp0()); // 3
        b.begin(oprop(Some("arrowFn"), 5), sp0()); // 4
        b.begin(arrow(false, false, 6), sp0()); // 5
        b.begin(fbody(vec![7]), sp0()); // 6
        b.leaf(ret(None), sp0()); // 7
        b.end();
        b.end();
        b.end(); // close 4
        b.begin(oprop(Some("fn"), 9), sp0()); // 8
        b.begin(func_expr(None, false, false, 10), sp0()); // 9
        b.begin(fbody(vec![11]), sp0()); // 10
        b.leaf(ret(None), sp0()); // 11
        assert_eq!(count(&done(b), &cfg), 0);
    }
    let typed_and_higher = options(vec![
        ("allowTypedFunctionExpressions", ConfigValue::Bool(true)),
        ("allowHigherOrderFunctions", ConfigValue::Bool(true)),
    ]);
    // type HigherOrderType = () => (arg1: string) => string;
    // const x: HigherOrderType = () => arg1 => 'foo';   (twice in the original)
    for _ in 0..2 {
        let mut b = ArenaBuilder::new();
        b.begin(AstKind::Program, sp0()); // 0
        b.leaf(other(), sp0()); // 1 type alias
        b.begin(other(), sp0()); // 2 const declaration
        b.begin(vdecl(Some("x"), true), sp0()); // 3
        b.begin(arrow(true, false, 5), sp0()); // 4
        b.begin(fbody(vec![6]), sp0()); // 5
        b.begin(estmt(7), sp0()); // 6
        b.begin(arrow(true, false, 8), sp0()); // 7
        b.begin(fbody(vec![9]), sp0()); // 8
        b.begin(estmt(10), sp0()); // 9
        b.leaf(other(), sp0()); // 10
        assert_eq!(count(&done(b), &typed_and_higher), 0);
    }
    // type HigherOrderType = () => (arg1: string) => (arg2: number) => string;
    // const x: HigherOrderType = () => arg1 => arg2 => 'foo';
    // with allowHigherOrderFunctions: false
    {
        let cfg = options(vec![
            ("allowTypedFunctionExpressions", ConfigValue::Bool(true)),
            ("allowHigherOrderFunctions", ConfigValue::Bool(false)),
        ]);
        let mut b = ArenaBuilder::new();
        b.begin(AstKind::Program, sp0()); // 0
        b.leaf(other(), sp0()); // 1
        b.begin(other(), sp0()); // 2
        b.begin(vdecl(Some("x"), true), sp0()); // 3
        b.begin(arrow(true, false, 5), sp0()); // 4
        b.begin(fbody(vec![6]), sp0()); // 5
        b.begin(estmt(7), sp0()); // 6
        b.begin(arrow(true, false, 8), sp0()); // 7
        b.begin(fbody(vec![9]), sp0()); // 8
        b.begin(estmt(10), sp0()); // 9
        b.begin(arrow(true, false, 11), sp0()); // 10
        b.begin(fbody(vec![12]), sp0()); // 11
        b.begin(estmt(13), sp0()); // 12
        b.leaf(other(), sp0()); // 13
        assert_eq!(count(&done(b), &cfg), 0);
    }
    // interface Foo { ... } function foo(): Foo { return { foo: 'foo', arrowFn: () => 'test' }; }
    {
        let mut b = ArenaBuilder::new();
        b.begin(AstKind::Program, sp0()); // 0
        b.leaf(other(), sp0()); // 1 interface
        b.begin(func_decl("foo", true, false, 3), sp0()); // 2
        b.begin(fbody(vec![4]), sp0()); // 3
        b.begin(ret(Some(5)), sp0()); // 4
        b.begin(AstKind::ObjectExpression, sp0()); // 5
        b.begin(oprop(Some("foo"), 7), sp0()); // 6
        b.leaf(other(), sp0()); // 7 'foo'
        b.end(); // 6
        b.begin(oprop(Some("arrowFn"), 9), sp0()); // 8
        b.begin(arrow(true, false, 10), sp0()); // 9
        b.begin(fbody(vec![11]), sp0()); // 10
        b.begin(estmt(12), sp0()); // 11
        b.leaf(other(), sp0()); // 12
        assert_eq!(count(&done(b), &typed_and_higher), 0);
    }
    // type Foo = ...; type Bar<T> = ...; const x: Bar<Foo> = arg1 => arg2 => arg1 + arg2;
    {
        let mut b = ArenaBuilder::new();
        b.begin(AstKind::Program, sp0()); // 0
        b.leaf(other(), sp0()); // 1
        b.leaf(other(), sp0()); // 2
        b.begin(other(), sp0()); // 3 const declaration
        b.begin(vdecl(Some("x"), true), sp0()); // 4
        b.begin(arrow(true, false, 6), sp0()); // 5
        b.begin(fbody(vec![7]), sp0()); // 6
        b.begin(estmt(8), sp0()); // 7
        b.begin(arrow(true, false, 9), sp0()); // 8
        b.begin(fbody(vec![10]), sp0()); // 9
        b.begin(estmt(11), sp0()); // 10
        b.leaf(other(), sp0()); // 11
        assert_eq!(count(&done(b), &typed_and_higher), 0);
    }
    let allow_iifes = options(vec![("allowIIFEs", ConfigValue::Bool(true))]);
    // let foo = function (): number { return 1; };
    {
        let mut b = ArenaBuilder::new();
        open_var(&mut b, "foo", false);
        b.begin(func_expr(None, true, false, 4), sp0()); // 3
        b.begin(fbody(vec![5]), sp0()); // 4
        b.begin(ret(Some(6)), sp0()); // 5
        b.leaf(other(), sp0()); // 6
        assert_eq!(count(&done(b), &allow_iifes), 0);
    }
    // const foo = (function () { return 1; })();
    {
        let mut b = ArenaBuilder::new();
        open_var(&mut b, "foo", false);
        b.begin(call(4), sp0()); // 3
        b.begin(paren(5), sp0()); // 4
        b.begin(func_expr(None, false, false, 6), sp0()); // 5
        b.begin(fbody(vec![7]), sp0()); // 6
        b.begin(ret(Some(8)), sp0()); // 7
        b.leaf(other(), sp0()); // 8
        assert_eq!(count(&done(b), &allow_iifes), 0);
    }
    // const foo = (() => { return 1; })();
    {
        let mut b = ArenaBuilder::new();
        open_var(&mut b, "foo", false);
        b.begin(call(4), sp0()); // 3
        b.begin(paren(5), sp0()); // 4
        b.begin(arrow(false, false, 6), sp0()); // 5
        b.begin(fbody(vec![7]), sp0()); // 6
        b.begin(ret(Some(8)), sp0()); // 7
        b.leaf(other(), sp0()); // 8
        assert_eq!(count(&done(b), &allow_iifes), 0);
    }
    // const foo = ((arg: number): number => { return arg; })(0);
    {
        let mut b = ArenaBuilder::new();
        open_var(&mut b, "foo", false);
        b.begin(call(4), sp0()); // 3
        b.begin(paren(5), sp0()); // 4
        b.begin(arrow(false, true, 6), sp0()); // 5
        b.begin(fbody(vec![7]), sp0()); // 6
        b.begin(ret(Some(8)), sp0()); // 7
        b.leaf(other(), sp0()); // 8
        b.end();
        b.end();
        b.end();
        b.end(); // close 4
        b.begin(AstKind::Argument, sp0()); // 9
        b.leaf(other(), sp0()); // 10
        assert_eq!(count(&done(b), &allow_iifes), 0);
    }
    // const foo = (() => (() => 'foo')())();
    {
        let mut b = ArenaBuilder::new();
        open_var(&mut b, "foo", false);
        b.begin(call(4), sp0()); // 3 outer call
        b.begin(paren(5), sp0()); // 4
        b.begin(arrow(true, false, 6), sp0()); // 5 outer arrow
        b.begin(fbody(vec![7]), sp0()); // 6
        b.begin(estmt(8), sp0()); // 7
        b.begin(call(9), sp0()); // 8 inner call
        b.begin(paren(10), sp0()); // 9
        b.begin(arrow(true, false, 11), sp0()); // 10 inner arrow
        b.begin(fbody(vec![12]), sp0()); // 11
        b.begin(estmt(13), sp0()); // 12
        b.leaf(other(), sp0()); // 13 'foo'
        assert_eq!(count(&done(b), &allow_iifes), 0);
    }
    // let foo = (() => (): string => { return 'foo'; })()();
    {
        let mut b = ArenaBuilder::new();
        open_var(&mut b, "foo", false);
        b.begin(call(4), sp0()); // 3 outer call ()()
        b.begin(call(5), sp0()); // 4 inner call ()
        b.begin(paren(6), sp0()); // 5
        b.begin(arrow(true, false, 7), sp0()); // 6
        b.begin(fbody(vec![8]), sp0()); // 7
        b.begin(estmt(9), sp0()); // 8
        b.begin(arrow(false, true, 10), sp0()); // 9
        b.begin(fbody(vec![11]), sp0()); // 10
        b.begin(ret(Some(12)), sp0()); // 11
        b.leaf(other(), sp0()); // 12
        assert_eq!(count(&done(b), &allow_iifes), 0);
    }
    // let foo = (() => (): string => { return 'foo'; })();  allowHigherOrderFunctions: false
    {
        let cfg = options(vec![
            ("allowIIFEs", ConfigValue::Bool(true)),
            ("allowHigherOrderFunctions", ConfigValue::Bool(false)),
        ]);
        let mut b = ArenaBuilder::new();
        open_var(&mut b, "foo", false);
        b.begin(call(4), sp0()); // 3
        b.begin(paren(5), sp0()); // 4
        b.begin(arrow(true, false, 6), sp0()); // 5
        b.begin(fbody(vec![7]), sp0()); // 6
        b.begin(estmt(8), sp0()); // 7
        b.begin(arrow(false, true, 9), sp0()); // 8
        b.begin(fbody(vec![10]), sp0()); // 9
        b.begin(ret(Some(11)), sp0()); // 10
        b.leaf(other(), sp0()); // 11
        assert_eq!(count(&done(b), &cfg), 0);
    }
    // let foo = (() => (): string => { return 'foo'; })()();  allowHigherOrderFunctions: true
    {
        let cfg = options(vec![
            ("allowIIFEs", ConfigValue::Bool(true)),
            ("allowHigherOrderFunctions", ConfigValue::Bool(true)),
        ]);
        let mut b = ArenaBuilder::new();
        open_var(&mut b, "foo", false);
        b.begin(call(4), sp0()); // 3
        b.begin(call(5), sp0()); // 4
        b.begin(paren(6), sp0()); // 5
        b.begin(arrow(true, false, 7), sp0()); // 6
        b.begin(fbody(vec![8]), sp0()); // 7
        b.begin(estmt(9), sp0()); // 8
        b.begin(arrow(false, true, 10), sp0()); // 9
        b.begin(fbody(vec![11]), sp0()); // 10
        b.begin(ret(Some(12)), sp0()); // 11
        b.leaf(other(), sp0()); // 12
        assert_eq!(count(&done(b), &cfg), 0);
    }
    // let foo = (() => (): void => {})()();
    {
        let mut b = ArenaBuilder::new();
        open_var(&mut b, "foo", false);
        b.begin(call(4), sp0()); // 3
        b.begin(call(5), sp0()); // 4
        b.begin(paren(6), sp0()); // 5
        b.begin(arrow(true, false, 7), sp0()); // 6
        b.begin(fbody(vec![8]), sp0()); // 7
        b.begin(estmt(9), sp0()); // 8
        b.begin(arrow(false, true, 10), sp0()); // 9
        b.leaf(fbody(vec![]), sp0()); // 10
        assert_eq!(count(&done(b), &allow_iifes), 0);
    }
    // let foo = (() => (() => {})())();
    {
        let mut b = ArenaBuilder::new();
        open_var(&mut b, "foo", false);
        b.begin(call(4), sp0()); // 3
        b.begin(paren(5), sp0()); // 4
        b.begin(arrow(true, false, 6), sp0()); // 5
        b.begin(fbody(vec![7]), sp0()); // 6
        b.begin(estmt(8), sp0()); // 7
        b.begin(call(9), sp0()); // 8
        b.begin(paren(10), sp0()); // 9
        b.begin(arrow(false, false, 11), sp0()); // 10
        b.leaf(fbody(vec![]), sp0()); // 11
        assert_eq!(count(&done(b), &allow_iifes), 0);
    }
    // class Bar { bar: Foo = { foo: x => x + 1 }; }
    {
        let mut b = ArenaBuilder::new();
        b.begin(AstKind::Program, sp0()); // 0
        b.begin(other(), sp0()); // 1 class
        b.begin(other(), sp0()); // 2 class body
        b.begin(pdef(Some("bar"), true), sp0()); // 3
        b.begin(AstKind::ObjectExpression, sp0()); // 4
        b.begin(oprop(Some("foo"), 6), sp0()); // 5
        b.begin(arrow(true, false, 7), sp0()); // 6
        b.begin(fbody(vec![8]), sp0()); // 7
        b.begin(estmt(9), sp0()); // 8
        b.leaf(other(), sp0()); // 9
        assert_eq!(count(&done(b), &no_options()), 0);
    }
    // class Bar { bar: Foo[] = [{ foo: x => x + 1 }]; }
    {
        let mut b = ArenaBuilder::new();
        b.begin(AstKind::Program, sp0()); // 0
        b.begin(other(), sp0()); // 1 class
        b.begin(other(), sp0()); // 2 class body
        b.begin(pdef(Some("bar"), true), sp0()); // 3
        b.begin(other(), sp0()); // 4 array expression
        b.begin(AstKind::ObjectExpression, sp0()); // 5
        b.begin(oprop(Some("foo"), 7), sp0()); // 6
        b.begin(arrow(true, false, 8), sp0()); // 7
        b.begin(fbody(vec![9]), sp0()); // 8
        b.begin(estmt(10), sp0()); // 9
        b.leaf(other(), sp0()); // 10
        assert_eq!(count(&done(b), &no_options()), 0);
    }
}

#[test]
fn arrow_with_annotation_is_exempt_and_plain_function_expression_reports() {
    // const foo = (): number => 1;  -> exempt
    {
        let mut b = ArenaBuilder::new();
        open_var(&mut b, "foo", false);
        b.begin(arrow(true, true, 4), sp0()); // 3
        b.begin(fbody(vec![5]), sp0()); // 4
        b.begin(estmt(6), sp0()); // 5
        b.leaf(other(), sp0()); // 6
        assert_eq!(count(&done(b), &no_options()), 0);
    }
    // var fn = function () { return 1; };  -> one violation, spanning the
    // function keyword through the parameter-list start.
    // "var fn = function () { return 1; };"
    //           9........18
    {
        let mut b = ArenaBuilder::new();
        b.begin(AstKind::Program, Span::new(0, 36)); // 0
        b.begin(other(), Span::new(0, 36)); // 1 var declaration
        b.begin(vdecl(Some("fn"), false), Span::new(4, 35)); // 2
        b.begin(
            AstKind::Function {
                ftype: FunctionType::FunctionExpression,
                name: None,
                id_span: sp0(),
                has_return_type: false,
                has_type_parameters: false,
                params_span: Span::new(18, 20),
                body: Some(4),
            },
            Span::new(9, 35),
        ); // 3
        b.begin(fbody(vec![5]), Span::new(21, 35)); // 4
        b.begin(ret(Some(6)), Span::new(23, 32)); // 5
        b.leaf(other(), Span::new(30, 31)); // 6
        let ds = diags(&done(b), &no_options());
        assert_eq!(ds.len(), 1);
        assert_eq!(ds[0].span, Span::new(9, 18));
        assert_eq!(ds[0].message, "typescript-eslint(explicit-function-return-type):");
        assert_eq!(ds[0].rule, "explicit-function-return-type");
    }
}

fn higher_order_declaration() -> Arena {
    // function fn() { return () => 1; }
    // 0.........9  params (11,13)
    let mut b = ArenaBuilder::new();
    b.begin(AstKind::Program, Span::new(0, 34)); // 0
    b.begin(
        AstKind::Function {
            ftype: FunctionType::FunctionDeclaration,
            name: Some("fn".to_string()),
            id_span: Span::new(9, 11),
            has_return_type: false,
            has_type_parameters: false,
            params_span: Span::new(11, 13),
            body: Some(2),
        },
        Span::new(0, 33),
    ); // 1
    b.begin(fbody(vec![3]), Span::new(14, 33)); // 2
    b.begin(ret(Some(4)), Span::new(16, 31)); // 3
    b.begin(
        AstKind::ArrowFunctionExpression {
            expression: true,
            has_return_type: false,
            has_type_parameters: false,
            params_span: Span::new(23, 25),
            body: 5,
        },
        Span::new(23, 30),
    ); // 4
    b.begin(fbody(vec![6]), Span::new(29, 30)); // 5
    b.begin(estmt(7), Span::new(29, 30)); // 6
    b.leaf(other(), Span::new(29, 30)); // 7
    done(b)
}

#[test]
fn higher_order_option_exempts_outer_function() {
    let a = higher_order_declaration();
    // allowHigherOrderFunctions: true -> the outer function is exempt; only
    // the inner arrow, which still lacks an annotation, reports.
    let cfg = options(vec![("allowHigherOrderFunctions", ConfigValue::Bool(true))]);
    let ds = diags(&a, &cfg);
    assert_eq!(ds.len(), 1);
    assert_eq!(ds[0].span, Span::new(26, 28)); // after the arrow's params
    // allowHigherOrderFunctions: false -> the outer function reports too,
    // first (document order), with the declaration-name span.
    let cfg = options(vec![("allowHigherOrderFunctions", ConfigValue::Bool(false))]);
    let ds = diags(&a, &cfg);
    assert_eq!(ds.len(), 2);
    assert_eq!(ds[0].span, Span::new(0, 11)); // function start to identifier end
    assert_eq!(ds[1].span, Span::new(26, 28));
    // the option defaults to off: the default configuration behaves the same
    let ds = diags(&a, &no_options());
    assert_eq!(ds.len(), 2);
    assert_eq!(ds[0].span, Span::new(0, 11));
    assert_eq!(ds[1].span, Span::new(26, 28));
}

#[test]
fn annotated_functions_are_exempt_under_any_configuration() {
    // function test(): void { return; } with every exemption switched off
    let cfg = options(vec![
        ("allowExpressions", ConfigValue::Bool(false)),
        ("allowTypedFunctionExpressions", ConfigValue::Bool(false)),
        ("allowDirectConstAssertionInArrowFunctions", ConfigValue::Bool(false)),
        ("allowConciseArrowFunctionExpressionsStartingWithVoid", ConfigValue::Bool(false)),
        ("allowFunctionsWithoutTypeParameters", ConfigValue::Bool(false)),
        ("allowHigherOrderFunctions", ConfigValue::Bool(false)),
        ("allowIIFEs", ConfigValue::Bool(false)),
    ]);
    let mut b = ArenaBuilder::new();
    b.begin(AstKind::Program, sp0());
    b.begin(func_decl("test", true, false, 2), sp0());
    b.begin(fbody(vec![3]), sp0());
    b.leaf(ret(None), sp0());
    assert_eq!(count(&done(b), &cfg), 0);
    // var a = (): string => 'x'; under the same configuration
    let mut b = ArenaBuilder::new();
    open_var(&mut b, "a", false);
    b.begin(arrow(true, true, 4), sp0());
    b.begin(fbody(vec![5]), sp0());
    b.begin(estmt(6), sp0());
    b.leaf(other(), sp0());
    assert_eq!(count(&done(b), &cfg), 0);
}

#[test]
fn configuration_defaults_and_malformed_values_fall_back() {
    let rule = ExplicitFunctionReturnType::from_configuration(&ConfigValue::Null);
    assert!(!rule.0.allow_expressions);
    assert!(rule.0.allow_typed_function_expressions);
    assert!(rule.0.allow_direct_const_assertion_in_arrow_functions);
    assert!(!rule.0.allow_concise_arrow_function_expressions_starting_with_void);
    assert!(!rule.0.allow_functions_without_type_parameters);
    assert!(rule.0.allowed_names.is_empty());
    assert!(!rule.0.allow_higher_order_functions);
    assert!(!rule.0.allow_iifes);
    // a malformed option value keeps the default
    let cfg = options(vec![
        ("allowExpressions", ConfigValue::Str("yes".to_string())),
        ("allowHigherOrderFunctions", ConfigValue::Null),
        (
            "allowedNames",
            ConfigValue::Array(vec![
                ConfigValue::Str("keep".to_string()),
                ConfigValue::Bool(true),
                ConfigValue::Str("also".to_string()),
            ]),
        ),
    ]);
    let rule = ExplicitFunctionReturnType::from_configuration(&cfg);
    assert!(!rule.0.allow_expressions);
    assert!(!rule.0.allow_higher_order_functions);
    assert_eq!(rule.0.allowed_names, vec!["keep".to_string(), "also".to_string()]);
}

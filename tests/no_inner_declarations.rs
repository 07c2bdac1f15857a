use no_inner_declarations::rule::{message, Diagnostic, NoInnerDeclarations};
use no_inner_declarations::scan::{find_violations, DeclKind, RootKind, Violation};
use no_inner_declarations::tree::{ModuleItem, Node, Program, Span, VarDeclKind};

// Builders for the trees of the sources below. Spans are found in the source
// text itself, so each tree stays tied to the string it stands for.

fn at(src: &str, text: &str) -> Span {
    let lo = src.find(text).expect("text not in source");
    Span { lo: lo as u32, hi: (lo + text.len()) as u32 }
}

fn leaf() -> Node {
    Node::Other { children: vec![] }
}

fn other(children: Vec<Node>) -> Node {
    Node::Other { children }
}

fn func(params: Vec<Node>, body: Vec<Node>) -> Node {
    Node::Func { params, body }
}

fn fn_decl(span: Span, params: Vec<Node>, body: Vec<Node>) -> Node {
    Node::FnDecl { span, params, body }
}

fn var(span: Span, kind: VarDeclKind, children: Vec<Node>) -> Node {
    Node::VarDecl { span, kind, children }
}

fn module(stmts: Vec<Node>) -> Program {
    Program::Module(stmts.into_iter().map(ModuleItem::Stmt).collect())
}

fn lint(p: &Program) -> Vec<Diagnostic> {
    let rule = NoInnerDeclarations::new();
    let mut context = Vec::new();
    rule.lint_program(&mut context, p);
    context
}

const HINT: &str = "Move the declaration up into the correct scope.";

fn assert_ok(src: &str, p: Program) {
    let found = lint(&p);
    assert!(found.is_empty(), "{}: {:?}", src, found);
}

fn assert_err(src: &str, p: Program, expected: &[(u32, &str, &str)]) {
    let found = lint(&p);
    assert_eq!(found.len(), expected.len(), "{}: {:?}", src, found);
    for (d, (col, kind, root)) in found.iter().zip(expected.iter()) {
        assert_eq!(d.span.lo, *col, "{}", src);
        assert_eq!(d.message, format!("Move {} declaration to {} root", kind, root), "{}", src);
        assert_eq!(d.hint, HINT);
        assert_eq!(d.code, "no-inner-declarations");
    }
}

#[test]
fn no_inner_declarations_valid() {
    let s = "function doSomething() { }";
    assert_ok(s, module(vec![fn_decl(at(s, s), vec![], vec![])]));

    let s = "function doSomething() { function somethingElse() { } }";
    assert_ok(
        s,
        module(vec![fn_decl(
            at(s, s),
            vec![],
            vec![fn_decl(at(s, "function somethingElse() { }"), vec![], vec![])],
        )]),
    );

    let s = "(function() { function doSomething() { } }());";
    assert_ok(
        s,
        module(vec![other(vec![other(vec![func(
            vec![],
            vec![fn_decl(at(s, "function doSomething() { }"), vec![], vec![])],
        )])])]),
    );

    let s = "function decl() { var fn = function expr() { }; }";
    assert_ok(
        s,
        module(vec![fn_decl(
            at(s, s),
            vec![],
            vec![var(
                at(s, "var fn = function expr() { };"),
                VarDeclKind::Var,
                vec![leaf(), func(vec![], vec![])],
            )],
        )]),
    );

    for s in [
        "function decl(arg) { var fn; if (arg) { fn = function() { }; } }",
        "function decl(arg) { var fn; if (arg) { fn = function expr() { }; } }",
        "function decl(arg) { var fn; if (arg) { fn = function expr() { }; } }",
    ] {
        assert_ok(
            s,
            module(vec![fn_decl(
                at(s, s),
                vec![leaf()],
                vec![
                    var(at(s, "var fn;"), VarDeclKind::Var, vec![leaf()]),
                    other(vec![leaf(), other(vec![other(vec![leaf(), func(vec![], vec![])])])]),
                ],
            )]),
        );
    }

    let s = "var x = {doSomething() {function doSomethingElse() {}}}";
    assert_ok(
        s,
        module(vec![var(
            at(s, s),
            VarDeclKind::Var,
            vec![
                leaf(),
                other(vec![leaf(), func(
                    vec![],
                    vec![fn_decl(at(s, "function doSomethingElse() {}"), vec![], vec![])],
                )]),
            ],
        )]),
    );

    let s = "if (test) { let x = 1; }";
    assert_ok(
        s,
        module(vec![other(vec![leaf(), other(vec![var(
            at(s, "let x = 1;"),
            VarDeclKind::Let,
            vec![leaf(), leaf()],
        )])])]),
    );

    let s = "if (test) { const x = 1; }";
    assert_ok(
        s,
        module(vec![other(vec![leaf(), other(vec![var(
            at(s, "const x = 1;"),
            VarDeclKind::Const,
            vec![leaf(), leaf()],
        )])])]),
    );

    let s = "var foo;";
    assert_ok(s, module(vec![var(at(s, s), VarDeclKind::Var, vec![leaf()])]));

    let s = "var foo = 42;";
    assert_ok(s, module(vec![var(at(s, s), VarDeclKind::Var, vec![leaf(), leaf()])]));

    let s = "function doSomething() { var foo; }";
    assert_ok(
        s,
        module(vec![fn_decl(
            at(s, s),
            vec![],
            vec![var(at(s, "var foo;"), VarDeclKind::Var, vec![leaf()])],
        )]),
    );

    let s = "(function() { var foo; }());";
    assert_ok(
        s,
        module(vec![other(vec![other(vec![func(
            vec![],
            vec![var(at(s, "var foo;"), VarDeclKind::Var, vec![leaf()])],
        )])])]),
    );

    let s = "foo(() => { function bar() { } });";
    assert_ok(
        s,
        module(vec![other(vec![leaf(), func(
            vec![],
            vec![fn_decl(at(s, "function bar() { }"), vec![], vec![])],
        )])]),
    );

    let s = "var fn = () => {var foo;}";
    assert_ok(
        s,
        module(vec![var(
            at(s, s),
            VarDeclKind::Var,
            vec![leaf(), func(vec![], vec![var(at(s, "var foo;"), VarDeclKind::Var, vec![leaf()])])],
        )]),
    );

    let s = "var x = {doSomething() {var foo;}}";
    assert_ok(
        s,
        module(vec![var(
            at(s, s),
            VarDeclKind::Var,
            vec![
                leaf(),
                other(vec![leaf(), func(
                    vec![],
                    vec![var(at(s, "var foo;"), VarDeclKind::Var, vec![leaf()])],
                )]),
            ],
        )]),
    );

    let s = "export var foo;";
    assert_ok(
        s,
        Program::Module(vec![ModuleItem::ExportDecl(var(
            at(s, "var foo;"),
            VarDeclKind::Var,
            vec![leaf()],
        ))]),
    );

    let s = "export function bar() {}";
    assert_ok(
        s,
        Program::Module(vec![ModuleItem::ExportDecl(fn_decl(
            at(s, "function bar() {}"),
            vec![],
            vec![],
        ))]),
    );

    let s = "export default function baz() {}";
    assert_ok(
        s,
        Program::Module(vec![ModuleItem::ExportDefaultFn {
            span: at(s, "function baz() {}"),
            params: vec![],
            body: vec![],
        }]),
    );

    let s = "exports.foo = () => {}";
    assert_ok(s, module(vec![other(vec![other(vec![leaf(), leaf()]), func(vec![], vec![])])]));

    let s = "exports.foo = function(){}";
    assert_ok(s, module(vec![other(vec![other(vec![leaf(), leaf()]), func(vec![], vec![])])]));

    let s = "module.exports = function foo(){}";
    assert_ok(s, module(vec![other(vec![other(vec![leaf(), leaf()]), func(vec![], vec![])])]));

    let s = "class Test { constructor() { function test() {} } }";
    assert_ok(
        s,
        module(vec![other(vec![leaf(), func(
            vec![],
            vec![fn_decl(at(s, "function test() {}"), vec![], vec![])],
        )])]),
    );

    let s = "class Test { method() { function test() {} } }";
    assert_ok(
        s,
        module(vec![other(vec![leaf(), other(vec![leaf(), func(
            vec![],
            vec![fn_decl(at(s, "function test() {}"), vec![], vec![])],
        )])])]),
    );
}

#[test]
fn no_inner_declarations_invalid() {
    // function declarations
    let s = "if (test) { function doSomething() { } }";
    assert_err(
        s,
        module(vec![other(vec![leaf(), other(vec![fn_decl(
            at(s, "function doSomething() { }"),
            vec![],
            vec![],
        )])])]),
        &[(12, "function", "module")],
    );

    let s = "if (foo)  function f(){} ";
    assert_err(
        s,
        module(vec![other(vec![leaf(), fn_decl(at(s, "function f(){}"), vec![], vec![])])]),
        &[(10, "function", "module")],
    );

    let s = "function bar() { if (foo) function f(){}; }";
    assert_err(
        s,
        module(vec![fn_decl(
            at(s, s),
            vec![],
            vec![
                other(vec![leaf(), fn_decl(at(s, "function f(){}"), vec![], vec![])]),
                leaf(),
            ],
        )]),
        &[(26, "function", "function")],
    );

    let s = "function doSomething() { do { function somethingElse() { } } while (test); }";
    assert_err(
        s,
        module(vec![fn_decl(
            at(s, s),
            vec![],
            vec![other(vec![
                other(vec![fn_decl(at(s, "function somethingElse() { }"), vec![], vec![])]),
                leaf(),
            ])],
        )]),
        &[(30, "function", "function")],
    );

    let s = "(function() { if (test) { function doSomething() { } } }());";
    assert_err(
        s,
        module(vec![other(vec![other(vec![func(
            vec![],
            vec![other(vec![leaf(), other(vec![fn_decl(
                at(s, "function doSomething() { }"),
                vec![],
                vec![],
            )])])],
        )])])]),
        &[(26, "function", "function")],
    );

    // var declarations
    let s = "if (foo) var a; ";
    assert_err(
        s,
        module(vec![other(vec![leaf(), var(at(s, "var a;"), VarDeclKind::Var, vec![leaf()])])]),
        &[(9, "variable", "module")],
    );

    let s = "if (foo) /* some comments */ var a; ";
    assert_err(
        s,
        module(vec![other(vec![leaf(), var(at(s, "var a;"), VarDeclKind::Var, vec![leaf()])])]),
        &[(29, "variable", "module")],
    );

    let s = "function bar() { if (foo) var a; }";
    assert_err(
        s,
        module(vec![fn_decl(
            at(s, s),
            vec![],
            vec![other(vec![leaf(), var(at(s, "var a;"), VarDeclKind::Var, vec![leaf()])])],
        )]),
        &[(26, "variable", "function")],
    );

    let s = "if (foo){ var a; }";
    assert_err(
        s,
        module(vec![other(vec![leaf(), other(vec![var(
            at(s, "var a;"),
            VarDeclKind::Var,
            vec![leaf()],
        )])])]),
        &[(10, "variable", "module")],
    );

    let s = "while (test) { var foo; }";
    assert_err(
        s,
        module(vec![other(vec![leaf(), other(vec![var(
            at(s, "var foo;"),
            VarDeclKind::Var,
            vec![leaf()],
        )])])]),
        &[(15, "variable", "module")],
    );

    let s = "function doSomething() { if (test) { var foo = 42; } }";
    assert_err(
        s,
        module(vec![fn_decl(
            at(s, s),
            vec![],
            vec![other(vec![leaf(), other(vec![var(
                at(s, "var foo = 42;"),
                VarDeclKind::Var,
                vec![leaf(), leaf()],
            )])])],
        )]),
        &[(37, "variable", "function")],
    );

    let s = "(function() { if (test) { var foo; } }());";
    assert_err(
        s,
        module(vec![other(vec![other(vec![func(
            vec![],
            vec![other(vec![leaf(), other(vec![var(
                at(s, "var foo;"),
                VarDeclKind::Var,
                vec![leaf()],
            )])])],
        )])])]),
        &[(26, "variable", "function")],
    );

    let s = "const doSomething = () => { if (test) { var foo = 42; } }";
    assert_err(
        s,
        module(vec![var(
            at(s, s),
            VarDeclKind::Const,
            vec![leaf(), func(
                vec![],
                vec![other(vec![leaf(), other(vec![var(
                    at(s, "var foo = 42;"),
                    VarDeclKind::Var,
                    vec![leaf(), leaf()],
                )])])],
            )],
        )]),
        &[(40, "variable", "function")],
    );

    // both
    let s = "if (foo){ function f(){ if(bar){ var a; } } }";
    assert_err(
        s,
        module(vec![other(vec![leaf(), other(vec![fn_decl(
            at(s, "function f(){ if(bar){ var a; } }"),
            vec![],
            vec![other(vec![leaf(), other(vec![var(
                at(s, "var a;"),
                VarDeclKind::Var,
                vec![leaf()],
            )])])],
        )])])]),
        &[(10, "function", "module"), (33, "variable", "function")],
    );

    let s = "if (foo) function f(){ if(bar) var a; } ";
    assert_err(
        s,
        module(vec![other(vec![leaf(), fn_decl(
            at(s, "function f(){ if(bar) var a; }"),
            vec![],
            vec![other(vec![leaf(), var(at(s, "var a;"), VarDeclKind::Var, vec![leaf()])])],
        )])]),
        &[(9, "function", "module"), (31, "variable", "function")],
    );
}

#[test]
fn empty_program_has_no_findings() {
    assert!(lint(&Program::Module(vec![])).is_empty());
    assert!(lint(&Program::Script(vec![])).is_empty());
}

#[test]
fn script_top_level_is_a_root() {
    let s = "var a; function f() {} if (x) { var b; }";
    let p = Program::Script(vec![
        var(at(s, "var a;"), VarDeclKind::Var, vec![leaf()]),
        fn_decl(at(s, "function f() {}"), vec![], vec![]),
        other(vec![leaf(), other(vec![var(at(s, "var b;"), VarDeclKind::Var, vec![leaf()])])]),
    ]);
    assert_eq!(
        find_violations(&p),
        vec![Violation { kind: DeclKind::Variable, root: RootKind::Module, span: at(s, "var b;") }]
    );
}

#[test]
fn let_and_const_in_nested_blocks_are_never_reported() {
    let s = "function f() { while (a) { if (b) { let x; const y = 1; } } }";
    assert_ok(
        s,
        module(vec![fn_decl(
            at(s, s),
            vec![],
            vec![other(vec![leaf(), other(vec![other(vec![leaf(), other(vec![
                var(at(s, "let x;"), VarDeclKind::Let, vec![leaf()]),
                var(at(s, "const y = 1;"), VarDeclKind::Const, vec![leaf(), leaf()]),
            ])])])])],
        )]),
    );
}

#[test]
fn deeply_nested_block_in_arrow_reports_function_root() {
    let s = "f(() => { if (a) { while (b) { function g() {} } } })";
    assert_err(
        s,
        module(vec![other(vec![leaf(), func(
            vec![],
            vec![other(vec![leaf(), other(vec![other(vec![leaf(), other(vec![fn_decl(
                at(s, "function g() {}"),
                vec![],
                vec![],
            )])])])])],
        )])]),
        &[(31, "function", "function")],
    );
}

#[test]
fn exported_let_at_top_level_is_not_reported() {
    let s = "export let x = 1; export const y = 2;";
    assert_ok(
        s,
        Program::Module(vec![
            ModuleItem::ExportDecl(var(at(s, "let x = 1;"), VarDeclKind::Let, vec![leaf(), leaf()])),
            ModuleItem::ExportDecl(var(at(s, "const y = 2;"), VarDeclKind::Const, vec![leaf(), leaf()])),
        ]),
    );
}

#[test]
fn default_export_function_body_is_a_root() {
    let s = "export default function () { var a; if (b) { var c; } }";
    assert_err(
        s,
        Program::Module(vec![ModuleItem::ExportDefaultFn {
            span: at(s, "function () { var a; if (b) { var c; } }"),
            params: vec![],
            body: vec![
                var(at(s, "var a;"), VarDeclKind::Var, vec![leaf()]),
                other(vec![leaf(), other(vec![var(at(s, "var c;"), VarDeclKind::Var, vec![leaf()])])]),
            ],
        }]),
        &[(45, "variable", "function")],
    );
}

#[test]
fn running_twice_gives_the_same_findings() {
    let s = "if (foo){ function f(){ if(bar){ var a; } } }";
    let p = module(vec![other(vec![leaf(), other(vec![fn_decl(
        at(s, "function f(){ if(bar){ var a; } }"),
        vec![],
        vec![other(vec![leaf(), other(vec![var(at(s, "var a;"), VarDeclKind::Var, vec![leaf()])])])],
    )])])]);
    let first = find_violations(&p);
    let second = find_violations(&p);
    assert_eq!(first.len(), 2);
    assert_eq!(first, second);
    assert!(first[0].span.lo < first[1].span.lo);
}

#[test]
fn messages_name_kind_and_root() {
    let span = Span { lo: 0, hi: 1 };
    let cases = [
        (DeclKind::Function, RootKind::Module, "Move function declaration to module root"),
        (DeclKind::Function, RootKind::Function, "Move function declaration to function root"),
        (DeclKind::Variable, RootKind::Module, "Move variable declaration to module root"),
        (DeclKind::Variable, RootKind::Function, "Move variable declaration to function root"),
    ];
    for (kind, root, text) in cases {
        assert_eq!(message(&Violation { kind, root, span }), text);
    }
}

#[test]
fn rule_code_and_tags() {
    let rule = NoInnerDeclarations::new();
    assert_eq!(rule.code(), "no-inner-declarations");
    assert_eq!(rule.tags(), &["recommended"]);
}

#[test]
fn earlier_diagnostics_in_context_are_kept() {
    let s = "if (foo) var a; ";
    let p = module(vec![other(vec![leaf(), var(at(s, "var a;"), VarDeclKind::Var, vec![leaf()])])]);
    let rule = NoInnerDeclarations::new();
    let mut context = lint(&p);
    rule.lint_program(&mut context, &p);
    assert_eq!(context.len(), 2);
    assert_eq!(context[0].span, context[1].span);
}

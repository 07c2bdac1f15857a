//! What holds of the check on every tree.
use vstd::prelude::*;
use crate::collect::{root_decls, valid_decls, valid_in_items};
use crate::scan::{
    own_violation, root_of, scan_item, scan_items, scan_list, scan_node, violations, DeclKind,
    RootKind, Violation,
};
use crate::tree::{decl_span, is_checked_decl, item_node, ModuleItem, Node, Program, Span};

verus! {

/// The kind under which a checked declaration is reported.
pub open spec fn decl_kind(n: Node) -> DeclKind {
    if n is FnDecl {
        DeclKind::Function
    } else {
        DeclKind::Variable
    }
}

/// Whether `n` is an element of the top-level list of `p`, directly or
/// under `export`.
pub open spec fn is_top_level(p: Program, n: Node) -> bool {
    match p {
        Program::Script(stmts) => exists|i: int| 0 <= i < stmts@.len() && stmts@[i] == n,
        Program::Module(items) => exists|i: int|
            0 <= i < items@.len() && item_node(#[trigger] items@[i]) == Some(n),
    }
}

/// Whether `d` is `n`, or lies within `n` through blocks and other
/// statements and expressions only, never through a function-like node.
pub open spec fn within_blocks(n: Node, d: Node) -> bool
    decreases n,
{
    n == d || match n {
        Node::Other { children } => exists|j: int|
            0 <= j < children@.len() && within_blocks(#[trigger] children@[j], d),
        _ => false,
    }
}

/// The function declarations and `var` declarations within `n`, `n`
/// included, each with the kind it would be reported under.
pub open spec fn checked_in_node(n: Node) -> Set<(DeclKind, Span)>
    decreases n,
{
    let own = if is_checked_decl(n) {
        set![(decl_kind(n), decl_span(n))]
    } else {
        Set::empty()
    };
    match n {
        Node::FnDecl { params, body, .. } => own + checked_in_list(params@) + checked_in_list(
            body@,
        ),
        Node::Func { params, body } => checked_in_list(params@) + checked_in_list(body@),
        Node::VarDecl { children, .. } => own + checked_in_list(children@),
        Node::Other { children } => checked_in_list(children@),
    }
}

pub open spec fn checked_in_list(s: Seq<Node>) -> Set<(DeclKind, Span)>
    decreases s,
{
    if s.len() == 0 {
        Set::empty()
    } else {
        checked_in_list(s.drop_last()) + checked_in_node(s.last())
    }
}

pub open spec fn checked_in_items(s: Seq<ModuleItem>) -> Set<(DeclKind, Span)>
    decreases s.len(),
{
    if s.len() == 0 {
        Set::empty()
    } else {
        checked_in_items(s.drop_last()) + checked_in_item(s.last())
    }
}

/// The function declarations and `var` declarations of a whole program.
pub open spec fn checked_in_program(p: Program) -> Set<(DeclKind, Span)> {
    match p {
        Program::Module(items) => checked_in_items(items@),
        Program::Script(stmts) => checked_in_list(stmts@),
    }
}

/// Whether `v` names a checked declaration of `checked` outside `valid`.
pub open spec fn sound_violation(v: Violation, valid: Set<Span>, checked: Set<(DeclKind, Span)>) -> bool {
    !valid.contains(v.span) && checked.contains((v.kind, v.span))
}

/// Whether every violation of `q` is sound.
pub open spec fn all_sound(q: Seq<Violation>, valid: Set<Span>, checked: Set<(DeclKind, Span)>) -> bool {
    forall|k: int| 0 <= k < q.len() ==> sound_violation(#[trigger] q[k], valid, checked)
}

proof fn lemma_concat_sound(
    a: Seq<Violation>,
    b: Seq<Violation>,
    valid: Set<Span>,
    c1: Set<(DeclKind, Span)>,
    c2: Set<(DeclKind, Span)>,
)
    requires
        all_sound(a, valid, c1),
        all_sound(b, valid, c2),
    ensures
        all_sound(a + b, valid, c1 + c2),
{
    assert forall|k: int| 0 <= k < (a + b).len() implies sound_violation(
        #[trigger] (a + b)[k],
        valid,
        c1 + c2,
    ) by {
        if k < a.len() {
            assert((a + b)[k] == a[k]);
        } else {
            assert((a + b)[k] == b[k - a.len()]);
        }
    }
}

proof fn lemma_scan_node_sound(n: Node, valid: Set<Span>, c: bool)
    ensures
        all_sound(scan_node(n, valid, c), valid, checked_in_node(n)),
    decreases n,
{
    let own = if is_checked_decl(n) {
        set![(decl_kind(n), decl_span(n))]
    } else {
        Set::<(DeclKind, Span)>::empty()
    };
    let ov = own_violation(n, valid, c);
    assert(all_sound(ov, valid, own));
    match n {
        Node::FnDecl { params, body, .. } => {
            lemma_scan_list_sound(params@, valid, true);
            lemma_scan_list_sound(body@, valid, true);
            let sp = scan_list(params@, valid, true);
            let sb = scan_list(body@, valid, true);
            lemma_concat_sound(ov, sp, valid, own, checked_in_list(params@));
            lemma_concat_sound(ov + sp, sb, valid, own + checked_in_list(params@), checked_in_list(body@));
        },
        Node::Func { params, body } => {
            lemma_scan_list_sound(params@, valid, true);
            lemma_scan_list_sound(body@, valid, true);
            lemma_concat_sound(
                scan_list(params@, valid, true),
                scan_list(body@, valid, true),
                valid,
                checked_in_list(params@),
                checked_in_list(body@),
            );
        },
        Node::VarDecl { children, .. } => {
            lemma_scan_list_sound(children@, valid, c);
            lemma_concat_sound(ov, scan_list(children@, valid, c), valid, own, checked_in_list(children@));
        },
        Node::Other { children } => {
            lemma_scan_list_sound(children@, valid, c);
        },
    }
}

proof fn lemma_scan_list_sound(s: Seq<Node>, valid: Set<Span>, c: bool)
    ensures
        all_sound(scan_list(s, valid, c), valid, checked_in_list(s)),
    decreases s,
{
    if s.len() > 0 {
        lemma_scan_list_sound(s.drop_last(), valid, c);
        lemma_scan_node_sound(s.last(), valid, c);
        lemma_concat_sound(
            scan_list(s.drop_last(), valid, c),
            scan_node(s.last(), valid, c),
            valid,
            checked_in_list(s.drop_last()),
            checked_in_node(s.last()),
        );
    }
}

/// The function declarations and `var` declarations within a top-level item.
pub open spec fn checked_in_item(item: ModuleItem) -> Set<(DeclKind, Span)> {
    match item {
        ModuleItem::Stmt(n) => checked_in_node(n),
        ModuleItem::ExportDecl(n) => checked_in_node(n),
        ModuleItem::ExportDefaultFn { params, body, .. } => checked_in_list(params@)
            + checked_in_list(body@),
        ModuleItem::OtherDecl { children } => checked_in_list(children@),
    }
}

proof fn lemma_scan_items_sound(s: Seq<ModuleItem>, valid: Set<Span>)
    ensures
        all_sound(scan_items(s, valid), valid, checked_in_items(s)),
    decreases s.len(),
{
    if s.len() > 0 {
        lemma_scan_items_sound(s.drop_last(), valid);
        match s.last() {
            ModuleItem::Stmt(n) => lemma_scan_node_sound(n, valid, false),
            ModuleItem::ExportDecl(n) => lemma_scan_node_sound(n, valid, false),
            ModuleItem::ExportDefaultFn { params, body, .. } => {
                lemma_scan_list_sound(params@, valid, true);
                lemma_scan_list_sound(body@, valid, true);
                lemma_concat_sound(
                    scan_list(params@, valid, true),
                    scan_list(body@, valid, true),
                    valid,
                    checked_in_list(params@),
                    checked_in_list(body@),
                );
            },
            ModuleItem::OtherDecl { children } => lemma_scan_list_sound(children@, valid, false),
        }
        lemma_concat_sound(
            scan_items(s.drop_last(), valid),
            scan_item(s.last(), valid),
            valid,
            checked_in_items(s.drop_last()),
            checked_in_item(s.last()),
        );
    }
}

/// Every reported declaration is a function declaration or a `var`
/// declaration of the program, reported under its own kind, and outside
/// the valid set: `let` and `const` declarations are never reported,
/// wherever they stand.
pub proof fn lemma_only_function_and_var_reported(p: Program)
    ensures
        all_sound(violations(p), valid_decls(p), checked_in_program(p)),
{
    match p {
        Program::Module(items) => lemma_scan_items_sound(items@, valid_decls(p)),
        Program::Script(stmts) => lemma_scan_list_sound(stmts@, valid_decls(p), false),
    }
}

proof fn lemma_root_decls_contains(s: Seq<Node>, i: int)
    requires
        0 <= i < s.len(),
        is_checked_decl(s[i]),
    ensures
        root_decls(s).contains(decl_span(s[i])),
    decreases s.len(),
{
    if i < s.len() - 1 {
        lemma_root_decls_contains(s.drop_last(), i);
    }
}

proof fn lemma_valid_in_items_contains(s: Seq<ModuleItem>, i: int, n: Node)
    requires
        0 <= i < s.len(),
        item_node(s[i]) == Some(n),
        is_checked_decl(n),
    ensures
        valid_in_items(s).contains(decl_span(n)),
    decreases s.len(),
{
    if i < s.len() - 1 {
        lemma_valid_in_items_contains(s.drop_last(), i, n);
    }
}

/// A function declaration or `var` declaration that is an element of the
/// top-level list of a program, directly or under `export`, is in the valid
/// set and is never reported.
pub proof fn lemma_top_level_not_reported(p: Program, n: Node)
    requires
        is_top_level(p, n),
        is_checked_decl(n),
    ensures
        valid_decls(p).contains(decl_span(n)),
        forall|k: int|
            0 <= k < violations(p).len() ==> (#[trigger] violations(p)[k]).span != decl_span(n),
{
    match p {
        Program::Script(stmts) => {
            let i = choose|i: int| 0 <= i < stmts@.len() && stmts@[i] == n;
            lemma_root_decls_contains(stmts@, i);
        },
        Program::Module(items) => {
            let i = choose|i: int| 0 <= i < items@.len() && item_node(#[trigger] items@[i]) == Some(n);
            lemma_valid_in_items_contains(items@, i, n);
        },
    }
    lemma_only_function_and_var_reported(p);
}

/// The findings of a statement list are those of its first part followed by
/// those of the rest: findings come in source order.
pub proof fn lemma_source_order(s1: Seq<Node>, s2: Seq<Node>, valid: Set<Span>, in_function: bool)
    ensures
        scan_list(s1 + s2, valid, in_function) == scan_list(s1, valid, in_function) + scan_list(
            s2,
            valid,
            in_function,
        ),
    decreases s2.len(),
{
    if s2.len() == 0 {
        assert(s1 + s2 =~= s1);
        assert(scan_list(s1, valid, in_function) + scan_list(s2, valid, in_function) =~= scan_list(
            s1,
            valid,
            in_function,
        ));
    } else {
        lemma_source_order(s1, s2.drop_last(), valid, in_function);
        assert((s1 + s2).drop_last() =~= s1 + s2.drop_last());
        assert((s1 + s2).last() == s2.last());
        assert(scan_list(s1 + s2, valid, in_function) =~= scan_list(s1, valid, in_function)
            + scan_list(s2, valid, in_function));
    }
}

/// The statement list of a function-like node's body.
pub open spec fn fn_body(f: Node) -> Seq<Node> {
    match f {
        Node::FnDecl { body, .. } => body@,
        Node::Func { body, .. } => body@,
        _ => Seq::empty(),
    }
}

/// The violation that a checked declaration `d` gives where it is reported.
pub open spec fn report_of(d: Node, in_function: bool) -> Violation {
    Violation { kind: decl_kind(d), root: root_of(in_function), span: decl_span(d) }
}

proof fn lemma_list_contains(s: Seq<Node>, j: int, valid: Set<Span>, c: bool, v: Violation)
    requires
        0 <= j < s.len(),
        scan_node(s[j], valid, c).contains(v),
    ensures
        scan_list(s, valid, c).contains(v),
    decreases s.len(),
{
    let a = scan_list(s.drop_last(), valid, c);
    let b = scan_node(s.last(), valid, c);
    if j < s.len() - 1 {
        lemma_list_contains(s.drop_last(), j, valid, c, v);
        let k = choose|k: int| 0 <= k < a.len() && a[k] == v;
        assert((a + b)[k] == v);
    } else {
        let k = choose|k: int| 0 <= k < b.len() && b[k] == v;
        assert((a + b)[a.len() + k] == v);
    }
}

proof fn lemma_items_contains(s: Seq<ModuleItem>, j: int, valid: Set<Span>, v: Violation)
    requires
        0 <= j < s.len(),
        scan_item(s[j], valid).contains(v),
    ensures
        scan_items(s, valid).contains(v),
    decreases s.len(),
{
    let a = scan_items(s.drop_last(), valid);
    let b = scan_item(s.last(), valid);
    if j < s.len() - 1 {
        lemma_items_contains(s.drop_last(), j, valid, v);
        let k = choose|k: int| 0 <= k < a.len() && a[k] == v;
        assert((a + b)[k] == v);
    } else {
        let k = choose|k: int| 0 <= k < b.len() && b[k] == v;
        assert((a + b)[a.len() + k] == v);
    }
}

/// A checked declaration outside the valid set gives exactly one violation
/// of its own, with the root that the surrounding context names; and it is
/// among the findings of every node that holds it through blocks only.
pub proof fn lemma_reported_within_blocks(n: Node, d: Node, valid: Set<Span>, in_function: bool)
    requires
        within_blocks(n, d),
        is_checked_decl(d),
        !valid.contains(decl_span(d)),
    ensures
        own_violation(d, valid, in_function) == seq![report_of(d, in_function)],
        scan_node(n, valid, in_function).contains(report_of(d, in_function)),
    decreases n,
{
    let v = report_of(d, in_function);
    assert(own_violation(d, valid, in_function) =~= seq![v]);
    if n == d {
        assert(scan_node(n, valid, in_function)[0] == v);
    } else {
        let children = n->Other_children;
        let j = choose|j: int| 0 <= j < children@.len() && within_blocks(#[trigger] children@[j], d);
        lemma_reported_within_blocks(children@[j], d, valid, in_function);
        lemma_list_contains(children@, j, valid, in_function, v);
    }
}

/// A function declaration or `var` declaration that lies in a block (an
/// `if`, a loop, a nested block) within the body of a function-like node is
/// reported once, with the function as its root, unless it is in the
/// valid set.
pub proof fn lemma_nested_in_function(f: Node, i: int, d: Node, valid: Set<Span>, in_function: bool)
    requires
        f is FnDecl || f is Func,
        0 <= i < fn_body(f).len(),
        fn_body(f)[i] is Other,
        within_blocks(fn_body(f)[i], d),
        is_checked_decl(d),
        !valid.contains(decl_span(d)),
    ensures
        own_violation(d, valid, true) == seq![report_of(d, true)],
        report_of(d, true).root == RootKind::Function,
        scan_node(f, valid, in_function).contains(report_of(d, true)),
{
    let v = report_of(d, true);
    lemma_reported_within_blocks(fn_body(f)[i], d, valid, true);
    lemma_list_contains(fn_body(f), i, valid, true, v);
    let sb = scan_list(fn_body(f), valid, true);
    let pre = scan_node(f, valid, in_function).subrange(
        0,
        scan_node(f, valid, in_function).len() - sb.len(),
    );
    assert(scan_node(f, valid, in_function) =~= pre + sb);
    let k = choose|k: int| 0 <= k < sb.len() && sb[k] == v;
    assert(scan_node(f, valid, in_function)[pre.len() + k] == v);
}

/// A function declaration or `var` declaration that lies in a block that is
/// itself an element of the program's top-level list is reported with the
/// module as its root, unless it is in the valid set.
pub proof fn lemma_nested_at_top_level(p: Program, b: Node, d: Node)
    requires
        is_top_level(p, b),
        b is Other,
        within_blocks(b, d),
        is_checked_decl(d),
        !valid_decls(p).contains(decl_span(d)),
    ensures
        report_of(d, false).root == RootKind::Module,
        violations(p).contains(report_of(d, false)),
{
    let valid = valid_decls(p);
    let v = report_of(d, false);
    lemma_reported_within_blocks(b, d, valid, false);
    match p {
        Program::Script(stmts) => {
            let i = choose|i: int| 0 <= i < stmts@.len() && stmts@[i] == b;
            lemma_list_contains(stmts@, i, valid, false, v);
        },
        Program::Module(items) => {
            let i = choose|i: int| 0 <= i < items@.len() && item_node(#[trigger] items@[i]) == Some(b);
            lemma_items_contains(items@, i, valid, v);
        },
    }
}

} // verus!

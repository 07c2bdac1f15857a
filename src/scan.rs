//! The second pass: every checked declaration outside the valid set, in
//! source order, with the kind of root it belongs at.
use vstd::prelude::*;
use crate::collect::{valid_decls, ValidSet};
use crate::tree::{ModuleItem, Node, Program, Span, VarDeclKind};

verus! {

/// What was declared in the wrong place.
#[derive(Clone, Copy, Debug, PartialEq, Eq, Structural)]
pub enum DeclKind {
    Function,
    Variable,
}

/// Where the declaration should be moved to.
#[derive(Clone, Copy, Debug, PartialEq, Eq, Structural)]
pub enum RootKind {
    Module,
    Function,
}

/// A declaration that is not at the root of its scope.
#[derive(Clone, Copy, Debug, PartialEq, Eq, Structural)]
pub struct Violation {
    pub kind: DeclKind,
    pub root: RootKind,
    pub span: Span,
}

pub open spec fn root_of(in_function: bool) -> RootKind {
    if in_function {
        RootKind::Function
    } else {
        RootKind::Module
    }
}

/// The violation that node `n` itself gives, if any.
pub open spec fn own_violation(n: Node, valid: Set<Span>, in_function: bool) -> Seq<Violation> {
    match n {
        Node::FnDecl { span, .. } => if valid.contains(span) {
            seq![]
        } else {
            seq![Violation { kind: DeclKind::Function, root: root_of(in_function), span }]
        },
        Node::VarDecl { span, kind, .. } => if kind == VarDeclKind::Var && !valid.contains(span) {
            seq![Violation { kind: DeclKind::Variable, root: root_of(in_function), span }]
        } else {
            seq![]
        },
        _ => seq![],
    }
}

/// The violations within `n`, in pre-order, where `in_function` tells
/// whether `n` stands inside a function-like body.
pub open spec fn scan_node(n: Node, valid: Set<Span>, in_function: bool) -> Seq<Violation>
    decreases n,
{
    match n {
        Node::FnDecl { params, body, .. } => own_violation(n, valid, in_function) + scan_list(
            params@,
            valid,
            true,
        ) + scan_list(body@, valid, true),
        Node::Func { params, body } => scan_list(params@, valid, true) + scan_list(
            body@,
            valid,
            true,
        ),
        Node::VarDecl { children, .. } => own_violation(n, valid, in_function) + scan_list(
            children@,
            valid,
            in_function,
        ),
        Node::Other { children } => scan_list(children@, valid, in_function),
    }
}

/// The violations within the nodes of `s`, in order.
pub open spec fn scan_list(s: Seq<Node>, valid: Set<Span>, in_function: bool) -> Seq<Violation>
    decreases s,
{
    if s.len() == 0 {
        seq![]
    } else {
        scan_list(s.drop_last(), valid, in_function) + scan_node(s.last(), valid, in_function)
    }
}

/// The violations within a top-level item of a module.
pub open spec fn scan_item(item: ModuleItem, valid: Set<Span>) -> Seq<Violation> {
    match item {
        ModuleItem::Stmt(n) => scan_node(n, valid, false),
        ModuleItem::ExportDecl(n) => scan_node(n, valid, false),
        ModuleItem::ExportDefaultFn { params, body, .. } => scan_list(params@, valid, true)
            + scan_list(body@, valid, true),
        ModuleItem::OtherDecl { children } => scan_list(children@, valid, false),
    }
}

/// The violations within the top-level items of `s`, in order.
pub open spec fn scan_items(s: Seq<ModuleItem>, valid: Set<Span>) -> Seq<Violation>
    decreases s.len(),
{
    if s.len() == 0 {
        seq![]
    } else {
        scan_items(s.drop_last(), valid) + scan_item(s.last(), valid)
    }
}

/// The violations within a program, judged against `valid`.
pub open spec fn scan_program(p: Program, valid: Set<Span>) -> Seq<Violation> {
    match p {
        Program::Module(items) => scan_items(items@, valid),
        Program::Script(stmts) => scan_list(stmts@, valid, false),
    }
}

/// The violations of a program: every function declaration and every `var`
/// declaration outside the program's valid set, in source order.
pub open spec fn violations(p: Program) -> Seq<Violation> {
    scan_program(p, valid_decls(p))
}

/// Walks the tree, with the valid set to consult and the flag that tells
/// whether the walk is inside a function-like body.
struct Scanner {
    valid: ValidSet,
    in_function: bool,
    found: Vec<Violation>,
}

impl Scanner {
    fn report(&mut self, kind: DeclKind, span: Span)
        ensures
            final(self).valid == old(self).valid,
            final(self).in_function == old(self).in_function,
            final(self).found@ == old(self).found@.push(
                Violation { kind, root: root_of(old(self).in_function), span },
            ),
    {
        let root = if self.in_function {
            RootKind::Function
        } else {
            RootKind::Module
        };
        self.found.push(Violation { kind, root, span });
    }

    fn visit_node(&mut self, n: &Node)
        ensures
            final(self).valid == old(self).valid,
            final(self).in_function == old(self).in_function,
            final(self).found@ == old(self).found@ + scan_node(
                *n,
                old(self).valid@,
                old(self).in_function,
            ),
        decreases n,
    {
        match n {
            Node::FnDecl { span, .. } => {
                if !self.valid.contains(*span) {
                    self.report(DeclKind::Function, *span);
                }
            },
            Node::VarDecl { span, kind, .. } => {
                if *kind == VarDeclKind::Var && !self.valid.contains(*span) {
                    self.report(DeclKind::Variable, *span);
                }
            },
            _ => {},
        }
        match n {
            Node::FnDecl { params, body, .. } | Node::Func { params, body } => {
                let old_in_function = self.in_function;
                self.in_function = true;
                self.visit_list(params);
                self.visit_list(body);
                self.in_function = old_in_function;
            },
            Node::VarDecl { children, .. } | Node::Other { children } => {
                self.visit_list(children);
            },
        }
        assert(final(self).found@ =~= old(self).found@ + scan_node(
            *n,
            old(self).valid@,
            old(self).in_function,
        ));
    }

    fn visit_list(&mut self, s: &Vec<Node>)
        ensures
            final(self).valid == old(self).valid,
            final(self).in_function == old(self).in_function,
            final(self).found@ == old(self).found@ + scan_list(
                s@,
                old(self).valid@,
                old(self).in_function,
            ),
        decreases s,
    {
        let ghost start = self.found@;
        let mut i: usize = 0;
        while i < s.len()
            invariant
                i <= s@.len(),
                self.valid == old(self).valid,
                self.in_function == old(self).in_function,
                self.found@ == start + scan_list(
                    s@.subrange(0, i as int),
                    old(self).valid@,
                    old(self).in_function,
                ),
            decreases s.len() - i,
        {
            self.visit_node(&s[i]);
            assert(s@.subrange(0, i + 1).drop_last() =~= s@.subrange(0, i as int));
            i += 1;
            assert(self.found@ =~= start + scan_list(
                s@.subrange(0, i as int),
                old(self).valid@,
                old(self).in_function,
            ));
        }
        assert(s@.subrange(0, i as int) =~= s@);
    }

    fn visit_module_item(&mut self, item: &ModuleItem)
        requires
            !old(self).in_function,
        ensures
            final(self).valid == old(self).valid,
            final(self).in_function == old(self).in_function,
            final(self).found@ == old(self).found@ + scan_item(*item, old(self).valid@),
    {
        match item {
            ModuleItem::Stmt(n) | ModuleItem::ExportDecl(n) => {
                self.visit_node(n);
            },
            ModuleItem::ExportDefaultFn { params, body, .. } => {
                self.in_function = true;
                self.visit_list(params);
                self.visit_list(body);
                self.in_function = false;
            },
            ModuleItem::OtherDecl { children } => {
                self.visit_list(children);
            },
        }
    }
}

/// Finds every function declaration and `var` declaration that does not sit
/// directly in the statement list of the program or of a function-like body.
///
/// The result is `violations(p)`, a function of the tree alone: a second run
/// on the same tree gives the same list.
pub fn find_violations(p: &Program) -> (r: Vec<Violation>)
    ensures
        r@ == violations(*p),
{
    let valid = ValidSet::collect(p);
    let mut scanner = Scanner { valid, in_function: false, found: Vec::new() };
    match p {
        Program::Module(items) => {
            let mut i: usize = 0;
            while i < items.len()
                invariant
                    i <= items@.len(),
                    scanner.valid@ == valid_decls(*p),
                    !scanner.in_function,
                    scanner.found@ == scan_items(items@.subrange(0, i as int), valid_decls(*p)),
                decreases items.len() - i,
            {
                scanner.visit_module_item(&items[i]);
                assert(items@.subrange(0, i + 1).drop_last() =~= items@.subrange(0, i as int));
                i += 1;
                assert(scanner.found@ =~= scan_items(items@.subrange(0, i as int), valid_decls(*p)));
            }
            assert(items@.subrange(0, i as int) =~= items@);
        },
        Program::Script(stmts) => {
            scanner.visit_list(stmts);
            assert(scanner.found@ =~= violations(*p));
        },
    }
    scanner.found
}

} // verus!

//! The syntax tree that the check reads, reduced to what the check needs.
use vstd::prelude::*;

verus! {

/// A source range in bytes. A node's span is its identity: two declarations
/// written alike at different places have different spans.
#[derive(Clone, Copy, Debug, PartialEq, Eq, Hash, Structural)]
pub struct Span {
    pub lo: u32,
    pub hi: u32,
}

/// The keyword of a variable declaration.
#[derive(Clone, Copy, Debug, PartialEq, Eq, Structural)]
pub enum VarDeclKind {
    Var,
    Let,
    Const,
}

/// A statement or expression, with the nodes nested in it in source order.
///
/// Function-like nodes (ordinary functions, methods, constructors and
/// arrow functions with a block body) are `FnDecl` or `Func`; `body` is the
/// statement list of their block, empty where there is none. An arrow
/// function with an expression body is no scope of its own: it is `Other`.
pub enum Node {
    /// A function declaration, `function f() { .. }`.
    FnDecl { span: Span, params: Vec<Node>, body: Vec<Node> },
    /// A `var`, `let` or `const` declaration; `children` holds its
    /// patterns and initialisers.
    VarDecl { span: Span, kind: VarDeclKind, children: Vec<Node> },
    /// Any other function-like node.
    Func { params: Vec<Node>, body: Vec<Node> },
    /// Any other node.
    Other { children: Vec<Node> },
}

/// An item of a module's top level.
pub enum ModuleItem {
    /// A statement.
    Stmt(Node),
    /// `export` in front of a declaration.
    ExportDecl(Node),
    /// `export default function .. { .. }`: a function expression.
    ExportDefaultFn { span: Span, params: Vec<Node>, body: Vec<Node> },
    /// Any other import or export.
    OtherDecl { children: Vec<Node> },
}

/// A whole source file.
pub enum Program {
    Module(Vec<ModuleItem>),
    Script(Vec<Node>),
}

/// Whether `n` is a declaration that the check is about: a function
/// declaration or a `var` declaration.
pub open spec fn is_checked_decl(n: Node) -> bool {
    match n {
        Node::FnDecl { .. } => true,
        Node::VarDecl { kind, .. } => kind == VarDeclKind::Var,
        _ => false,
    }
}

/// The span of a declaration node.
pub open spec fn decl_span(n: Node) -> Span
    recommends
        n is FnDecl || n is VarDecl,
{
    match n {
        Node::FnDecl { span, .. } => span,
        Node::VarDecl { span, .. } => span,
        _ => arbitrary(),
    }
}

/// The declaration that a top-level item is or wraps, if any.
pub open spec fn item_node(item: ModuleItem) -> Option<Node> {
    match item {
        ModuleItem::Stmt(n) => Some(n),
        ModuleItem::ExportDecl(n) => Some(n),
        _ => None,
    }
}

} // verus!

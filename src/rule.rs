//! The check as a lint rule: diagnostics with a code, a message and a hint.
use std::sync::Arc;
use vstd::prelude::*;
use crate::scan::{find_violations, violations, DeclKind, RootKind, Violation};
use crate::tree::{Program, Span};

verus! {

/// The rule's identifier.
pub open spec fn code_text() -> Seq<char> {
    "no-inner-declarations"@
}

/// The hint that goes with every diagnostic.
pub open spec fn hint_text() -> Seq<char> {
    "Move the declaration up into the correct scope."@
}

pub open spec fn kind_word(k: DeclKind) -> Seq<char> {
    match k {
        DeclKind::Function => "function"@,
        DeclKind::Variable => "variable"@,
    }
}

pub open spec fn root_word(r: RootKind) -> Seq<char> {
    match r {
        RootKind::Function => "function"@,
        RootKind::Module => "module"@,
    }
}

/// "Move {kind} declaration to {root} root".
pub open spec fn message_text(v: Violation) -> Seq<char> {
    "Move "@ + kind_word(v.kind) + " declaration to "@ + root_word(v.root) + " root"@
}

/// A report handed to whoever collects the check's findings.
#[derive(Clone, Debug)]
pub struct Diagnostic {
    pub span: Span,
    pub code: String,
    pub message: String,
    pub hint: String,
}

/// Whether `d` is the diagnostic for `v`.
pub open spec fn describes(d: Diagnostic, v: Violation) -> bool {
    &&& d.span == v.span
    &&& d.code@ == code_text()
    &&& d.message@ == message_text(v)
    &&& d.hint@ == hint_text()
}

/// The message for a violation.
pub fn message(v: &Violation) -> (r: String)
    ensures
        r@ == message_text(*v),
{
    let kind = match v.kind {
        DeclKind::Function => "function",
        DeclKind::Variable => "variable",
    };
    let root = match v.root {
        RootKind::Function => "function",
        RootKind::Module => "module",
    };
    let mut r = "Move ".to_owned();
    r.append(kind);
    r.append(" declaration to ");
    r.append(root);
    r.append(" root");
    r
}

/// The diagnostic for a violation.
pub fn diagnostic(v: &Violation) -> (d: Diagnostic)
    ensures
        describes(d, *v),
{
    Diagnostic {
        span: v.span,
        code: "no-inner-declarations".to_owned(),
        message: message(v),
        hint: "Move the declaration up into the correct scope.".to_owned(),
    }
}

/// Reports function declarations and `var` declarations that are nested in
/// blocks rather than placed at the root of their module or function.
#[derive(Debug)]
pub struct NoInnerDeclarations;

impl NoInnerDeclarations {
    pub fn new() -> (r: Arc<NoInnerDeclarations>) {
        Arc::new(NoInnerDeclarations)
    }

    pub fn tags(&self) -> (r: &'static [&'static str])
        ensures
            r@.len() == 1,
            r@[0]@ == "recommended"@,
    {
        &["recommended"]
    }

    pub fn code(&self) -> (r: &'static str)
        ensures
            r@ == code_text(),
    {
        "no-inner-declarations"
    }

    /// Appends to `context` one diagnostic per violation of `program`, in
    /// source order.
    pub fn lint_program(&self, context: &mut Vec<Diagnostic>, program: &Program)
        ensures
            final(context)@.len() == old(context)@.len() + violations(*program).len(),
            final(context)@.subrange(0, old(context)@.len() as int) == old(context)@,
            forall|i: int|
                0 <= i < violations(*program).len() ==> describes(
                    #[trigger] final(context)@[old(context)@.len() + i],
                    violations(*program)[i],
                ),
    {
        let found = find_violations(program);
        let ghost start = context@;
        let mut i: usize = 0;
        while i < found.len()
            invariant
                found@ == violations(*program),
                i <= found@.len(),
                context@.len() == start.len() + i,
                context@.subrange(0, start.len() as int) == start,
                forall|j: int|
                    0 <= j < i ==> describes(#[trigger] context@[start.len() + j], found@[j]),
            decreases found.len() - i,
        {
            context.push(diagnostic(&found[i]));
            assert(context@.subrange(0, start.len() as int) =~= start);
            i += 1;
        }
    }
}

} // verus!

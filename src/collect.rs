//! The first pass: the set of declarations that already sit at a scope root.
use std::collections::HashSet;
use vstd::prelude::*;
use crate::tree::{decl_span, is_checked_decl, ModuleItem, Node, Program, Span, VarDeclKind};

verus! {

/// The span of `n` as a set, where `n` is a checked declaration; else empty.
pub open spec fn own_decl(n: Node) -> Set<Span> {
    if is_checked_decl(n) {
        set![decl_span(n)]
    } else {
        Set::empty()
    }
}

/// The spans of the checked declarations that are elements of `stmts`.
pub open spec fn root_decls(stmts: Seq<Node>) -> Set<Span>
    decreases stmts.len(),
{
    if stmts.len() == 0 {
        Set::empty()
    } else {
        root_decls(stmts.drop_last()) + own_decl(stmts.last())
    }
}

/// The root declarations of every function-like node within `n`, `n` included.
pub open spec fn valid_in_node(n: Node) -> Set<Span>
    decreases n,
{
    match n {
        Node::FnDecl { params, body, .. } => root_decls(body@) + valid_in_list(params@)
            + valid_in_list(body@),
        Node::Func { params, body } => root_decls(body@) + valid_in_list(params@) + valid_in_list(
            body@,
        ),
        Node::VarDecl { children, .. } => valid_in_list(children@),
        Node::Other { children } => valid_in_list(children@),
    }
}

/// The root declarations of every function-like node within the nodes of `s`.
pub open spec fn valid_in_list(s: Seq<Node>) -> Set<Span>
    decreases s,
{
    if s.len() == 0 {
        Set::empty()
    } else {
        valid_in_list(s.drop_last()) + valid_in_node(s.last())
    }
}

/// What a top-level item of a module adds to the valid set.
pub open spec fn valid_in_item(item: ModuleItem) -> Set<Span> {
    match item {
        ModuleItem::Stmt(n) => own_decl(n) + valid_in_node(n),
        ModuleItem::ExportDecl(n) => own_decl(n) + valid_in_node(n),
        ModuleItem::ExportDefaultFn { span, params, body } => set![span] + root_decls(body@)
            + valid_in_list(params@) + valid_in_list(body@),
        ModuleItem::OtherDecl { children } => valid_in_list(children@),
    }
}

/// What the top-level items of `s` add to the valid set.
pub open spec fn valid_in_items(s: Seq<ModuleItem>) -> Set<Span>
    decreases s.len(),
{
    if s.len() == 0 {
        Set::empty()
    } else {
        valid_in_items(s.drop_last()) + valid_in_item(s.last())
    }
}

/// The valid set of a program: every declaration that sits directly in the
/// statement list of the program or of a function-like body.
pub open spec fn valid_decls(p: Program) -> Set<Span> {
    match p {
        Program::Module(items) => valid_in_items(items@),
        Program::Script(stmts) => root_decls(stmts@) + valid_in_list(stmts@),
    }
}

/// The key under which a span is stored: start offset in the high half,
/// end offset in the low half.
pub open spec fn span_key(s: Span) -> u64 {
    (s.lo as u64) << 32u64 | (s.hi as u64)
}

proof fn lemma_span_key_injective(a: Span, b: Span)
    ensures
        span_key(a) == span_key(b) ==> a == b,
{
    let (x1, y1, x2, y2) = (a.lo, a.hi, b.lo, b.hi);
    assert(((x1 as u64) << 32u64 | (y1 as u64)) == ((x2 as u64) << 32u64 | (y2 as u64)) ==> x1
        == x2 && y1 == y2) by (bit_vector);
}

fn key_of(s: Span) -> (k: u64)
    ensures
        k == span_key(s),
{
    (s.lo as u64) << 32u64 | (s.hi as u64)
}

/// A set of declaration spans.
pub struct ValidSet {
    keys: HashSet<u64>,
}

impl View for ValidSet {
    type V = Set<Span>;

    closed spec fn view(&self) -> Set<Span> {
        Set::new(|s: Span| self.keys@.contains(span_key(s)))
    }
}

impl ValidSet {
    pub fn new() -> (r: ValidSet)
        ensures
            r@ == Set::<Span>::empty(),
    {
        let r = ValidSet { keys: HashSet::new() };
        assert(r@ =~= Set::<Span>::empty());
        r
    }

    pub fn insert(&mut self, s: Span)
        ensures
            final(self)@ == old(self)@.insert(s),
    {
        broadcast use vstd::std_specs::hash::group_hash_axioms;

        self.keys.insert(key_of(s));
        assert forall|t: Span| #[trigger] final(self)@.contains(t) == old(self)@.insert(s).contains(t) by {
            lemma_span_key_injective(s, t);
        }
        assert(final(self)@ =~= old(self)@.insert(s));
    }

    pub fn contains(&self, s: Span) -> (r: bool)
        ensures
            r == self@.contains(s),
    {
        broadcast use vstd::std_specs::hash::group_hash_axioms;

        self.keys.contains(&key_of(s))
    }

    /// Adds `n`'s span where `n` is a checked declaration.
    fn check_decl(&mut self, n: &Node)
        ensures
            final(self)@ == old(self)@ + own_decl(*n),
    {
        match n {
            Node::FnDecl { span, .. } => {
                self.insert(*span);
            },
            Node::VarDecl { span, kind, .. } => {
                if *kind == VarDeclKind::Var {
                    self.insert(*span);
                }
            },
            _ => {},
        }
        assert(final(self)@ =~= old(self)@ + own_decl(*n));
    }

    /// Adds the checked declarations that are elements of `stmts`.
    fn check_stmts(&mut self, stmts: &Vec<Node>)
        ensures
            final(self)@ == old(self)@ + root_decls(stmts@),
    {
        let ghost start = self@;
        let mut i: usize = 0;
        while i < stmts.len()
            invariant
                i <= stmts@.len(),
                self@ == start + root_decls(stmts@.subrange(0, i as int)),
            decreases stmts.len() - i,
        {
            self.check_decl(&stmts[i]);
            assert(stmts@.subrange(0, i + 1).drop_last() =~= stmts@.subrange(0, i as int));
            i += 1;
            assert(self@ =~= start + root_decls(stmts@.subrange(0, i as int)));
        }
        assert(stmts@.subrange(0, i as int) =~= stmts@);
    }

    /// Adds the root declarations of every function-like node within `n`.
    fn visit_node(&mut self, n: &Node)
        ensures
            final(self)@ == old(self)@ + valid_in_node(*n),
        decreases n,
    {
        match n {
            Node::FnDecl { params, body, .. } | Node::Func { params, body } => {
                self.check_stmts(body);
                self.visit_list(params);
                self.visit_list(body);
            },
            Node::VarDecl { children, .. } | Node::Other { children } => {
                self.visit_list(children);
            },
        }
        assert(final(self)@ =~= old(self)@ + valid_in_node(*n));
    }

    /// Adds the root declarations of every function-like node within the
    /// nodes of `s`.
    fn visit_list(&mut self, s: &Vec<Node>)
        ensures
            final(self)@ == old(self)@ + valid_in_list(s@),
        decreases s,
    {
        let ghost start = self@;
        let mut i: usize = 0;
        while i < s.len()
            invariant
                i <= s@.len(),
                self@ == start + valid_in_list(s@.subrange(0, i as int)),
            decreases s.len() - i,
        {
            self.visit_node(&s[i]);
            assert(s@.subrange(0, i + 1).drop_last() =~= s@.subrange(0, i as int));
            i += 1;
            assert(self@ =~= start + valid_in_list(s@.subrange(0, i as int)));
        }
        assert(s@.subrange(0, i as int) =~= s@);
    }

    /// Adds what a top-level item of a module contributes.
    fn visit_module_item(&mut self, item: &ModuleItem)
        ensures
            final(self)@ == old(self)@ + valid_in_item(*item),
    {
        match item {
            ModuleItem::Stmt(n) | ModuleItem::ExportDecl(n) => {
                self.check_decl(n);
                self.visit_node(n);
            },
            ModuleItem::ExportDefaultFn { span, params, body } => {
                self.insert(*span);
                self.check_stmts(body);
                self.visit_list(params);
                self.visit_list(body);
            },
            ModuleItem::OtherDecl { children } => {
                self.visit_list(children);
            },
        }
        assert(final(self)@ =~= old(self)@ + valid_in_item(*item));
    }

    /// The valid set of a program.
    pub fn collect(p: &Program) -> (r: ValidSet)
        ensures
            r@ == valid_decls(*p),
    {
        let mut r = ValidSet::new();
        match p {
            Program::Module(items) => {
                let mut i: usize = 0;
                while i < items.len()
                    invariant
                        i <= items@.len(),
                        r@ == valid_in_items(items@.subrange(0, i as int)),
                    decreases items.len() - i,
                {
                    r.visit_module_item(&items[i]);
                    assert(items@.subrange(0, i + 1).drop_last() =~= items@.subrange(0, i as int));
                    i += 1;
                    assert(r@ =~= valid_in_items(items@.subrange(0, i as int)));
                }
                assert(items@.subrange(0, i as int) =~= items@);
            },
            Program::Script(stmts) => {
                r.check_stmts(stmts);
                r.visit_list(stmts);
                assert(r@ =~= valid_decls(*p));
            },
        }
        r
    }
}

} // verus!

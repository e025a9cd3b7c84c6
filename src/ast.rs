//! Expression and statement trees, and the program that holds them.
use vstd::prelude::*;

use crate::decimal::{decimal, push_decimal};
use crate::token::Token;

verus! {

/// A value-producing piece of syntax.
#[derive(Debug)]
pub enum Expr {
    Ident(String),
    Int(i64),
    Prefix(Token, Box<Expr>),
    Infix(Token, Box<Expr>, Box<Expr>),
    /// A placeholder for a node not yet built; never rendered.
    Value,
}

impl Expr {
    /// The tree holds no placeholder anywhere.
    pub open spec fn renderable(self) -> bool
        decreases self,
    {
        match self {
            Expr::Ident(_) => true,
            Expr::Int(_) => true,
            Expr::Prefix(_, e) => e.renderable(),
            Expr::Infix(_, l, r) => l.renderable() && r.renderable(),
            Expr::Value => false,
        }
    }

    /// The canonical text of the tree: every operator application is
    /// parenthesised, with no spaces.
    pub open spec fn text(self) -> Seq<char>
        decreases self,
    {
        match self {
            Expr::Ident(name) => name@,
            Expr::Int(n) => decimal(n as int),
            Expr::Prefix(op, e) => seq!['('] + op.text() + e.text() + seq![')'],
            Expr::Infix(op, l, r) => seq!['('] + l.text() + op.text() + r.text() + seq![')'],
            Expr::Value => Seq::empty(),
        }
    }

    /// Structural equality: same variant, and all fields equal.
    pub open spec fn same(self, o: Expr) -> bool
        decreases self,
    {
        match self {
            Expr::Ident(a) => o matches Expr::Ident(b) && a@ == b@,
            Expr::Int(a) => o matches Expr::Int(b) && a == b,
            Expr::Prefix(p, a) => o matches Expr::Prefix(q, b) && p == q && a.same(*b),
            Expr::Infix(p, a1, a2) => o matches Expr::Infix(q, b1, b2) && p == q && a1.same(*b1)
                && a2.same(*b2),
            Expr::Value => o is Value,
        }
    }

    /// Appends the canonical text of the tree to `out`.
    fn write_to(&self, out: &mut String)
        requires
            self.renderable(),
        ensures
            final(out)@ == old(out)@ + self.text(),
        decreases self,
    {
        proof { reveal_strlit("("); reveal_strlit(")"); }
        match self {
            Expr::Ident(name) => {
                out.append(name.as_str());
            },
            Expr::Int(n) => {
                push_decimal(out, *n);
            },
            Expr::Prefix(op, e) => {
                out.append("(");
                out.append(op.as_str());
                e.write_to(out);
                out.append(")");
                assert(out@ =~= old(out)@ + self.text());
            },
            Expr::Infix(op, l, r) => {
                out.append("(");
                l.write_to(out);
                out.append(op.as_str());
                r.write_to(out);
                out.append(")");
                assert(out@ =~= old(out)@ + self.text());
            },
            Expr::Value => {
                unreached::<()>();
            },
        }
    }

    /// The canonical text of the tree. The tree must hold no placeholder.
    pub fn to_string(&self) -> (r: String)
        requires
            self.renderable(),
        ensures
            r@ == self.text(),
    {
        let mut out = String::new();
        self.write_to(&mut out);
        assert(out@ =~= self.text());
        out
    }

    fn equals(&self, o: &Expr) -> (r: bool)
        ensures
            r == self.same(*o),
        decreases self,
    {
        match self {
            Expr::Ident(a) => match o {
                Expr::Ident(b) => a.eq(b),
                _ => false,
            },
            Expr::Int(a) => match o {
                Expr::Int(b) => a == b,
                _ => false,
            },
            Expr::Prefix(p, a) => match o {
                Expr::Prefix(q, b) => p == q && (&**a).equals(&**b),
                _ => false,
            },
            Expr::Infix(p, a1, a2) => match o {
                Expr::Infix(q, b1, b2) => p == q && (&**a1).equals(&**b1) && (&**a2).equals(&**b2),
                _ => false,
            },
            Expr::Value => match o {
                Expr::Value => true,
                _ => false,
            },
        }
    }
}

impl Clone for Expr {
    fn clone(&self) -> (r: Expr)
        ensures
            r.same(*self),
        decreases self,
    {
        match self {
            Expr::Ident(name) => Expr::Ident(name.clone()),
            Expr::Int(n) => Expr::Int(*n),
            Expr::Prefix(op, e) => Expr::Prefix(*op, Box::new((&**e).clone())),
            Expr::Infix(op, l, r) => Expr::Infix(
                *op,
                Box::new((&**l).clone()),
                Box::new((&**r).clone()),
            ),
            Expr::Value => Expr::Value,
        }
    }
}

impl PartialEq for Expr {
    fn eq(&self, o: &Expr) -> (r: bool) {
        self.equals(o)
    }
}

impl vstd::std_specs::cmp::PartialEqSpecImpl for Expr {
    open spec fn obeys_eq_spec() -> bool {
        true
    }

    open spec fn eq_spec(&self, o: &Expr) -> bool {
        self.same(*o)
    }
}

/// One instruction of a program.
#[derive(Debug)]
pub enum Stmt {
    /// A binding of a value to a target, conventionally an identifier.
    Let(Expr, Expr),
    Ret(Expr),
    Expr(Expr),
}

impl Stmt {
    /// No expression of the statement holds a placeholder.
    pub open spec fn renderable(self) -> bool {
        match self {
            Stmt::Let(target, value) => target.renderable() && value.renderable(),
            Stmt::Ret(value) => value.renderable(),
            Stmt::Expr(value) => value.renderable(),
        }
    }

    /// The canonical text of the statement: `let` and `return` end in `;`,
    /// a bare expression has no terminator.
    pub open spec fn text(self) -> Seq<char> {
        match self {
            Stmt::Let(target, value) => seq!['l', 'e', 't', ' '] + target.text() + seq![' ', '=', ' ']
                + value.text() + seq![';'],
            Stmt::Ret(value) => seq!['r', 'e', 't', 'u', 'r', 'n', ' '] + value.text() + seq![';'],
            Stmt::Expr(value) => value.text(),
        }
    }

    /// Structural equality: same variant, and all expressions equal.
    pub open spec fn same(self, o: Stmt) -> bool {
        match self {
            Stmt::Let(t1, v1) => o matches Stmt::Let(t2, v2) && t1.same(t2) && v1.same(v2),
            Stmt::Ret(v1) => o matches Stmt::Ret(v2) && v1.same(v2),
            Stmt::Expr(v1) => o matches Stmt::Expr(v2) && v1.same(v2),
        }
    }

    /// Appends the canonical text of the statement to `out`.
    fn write_to(&self, out: &mut String)
        requires
            self.renderable(),
        ensures
            final(out)@ == old(out)@ + self.text(),
    {
        proof { reveal_strlit("let "); reveal_strlit(" = "); reveal_strlit(";"); reveal_strlit("return "); }
        match self {
            Stmt::Let(target, value) => {
                out.append("let ");
                target.write_to(out);
                out.append(" = ");
                value.write_to(out);
                out.append(";");
                assert(out@ =~= old(out)@ + self.text());
            },
            Stmt::Ret(value) => {
                out.append("return ");
                value.write_to(out);
                out.append(";");
                assert(out@ =~= old(out)@ + self.text());
            },
            Stmt::Expr(value) => {
                value.write_to(out);
            },
        }
    }

    /// The canonical text of the statement. It must hold no placeholder.
    pub fn to_string(&self) -> (r: String)
        requires
            self.renderable(),
        ensures
            r@ == self.text(),
    {
        let mut out = String::new();
        self.write_to(&mut out);
        assert(out@ =~= self.text());
        out
    }

    fn equals(&self, o: &Stmt) -> (r: bool)
        ensures
            r == self.same(*o),
    {
        match self {
            Stmt::Let(t1, v1) => match o {
                Stmt::Let(t2, v2) => t1.equals(t2) && v1.equals(v2),
                _ => false,
            },
            Stmt::Ret(v1) => match o {
                Stmt::Ret(v2) => v1.equals(v2),
                _ => false,
            },
            Stmt::Expr(v1) => match o {
                Stmt::Expr(v2) => v1.equals(v2),
                _ => false,
            },
        }
    }
}

impl Clone for Stmt {
    fn clone(&self) -> (r: Stmt)
        ensures
            r.same(*self),
    {
        match self {
            Stmt::Let(target, value) => Stmt::Let(target.clone(), value.clone()),
            Stmt::Ret(value) => Stmt::Ret(value.clone()),
            Stmt::Expr(value) => Stmt::Expr(value.clone()),
        }
    }
}

impl PartialEq for Stmt {
    fn eq(&self, o: &Stmt) -> (r: bool) {
        self.equals(o)
    }
}

impl vstd::std_specs::cmp::PartialEqSpecImpl for Stmt {
    open spec fn obeys_eq_spec() -> bool {
        true
    }

    open spec fn eq_spec(&self, o: &Stmt) -> bool {
        self.same(*o)
    }
}

/// The text of a sequence of statements: their texts in order, with
/// nothing between them.
pub open spec fn stmts_text(stmts: Seq<Stmt>) -> Seq<char>
    decreases stmts.len(),
{
    if stmts.len() == 0 {
        Seq::empty()
    } else {
        stmts_text(stmts.drop_last()) + stmts.last().text()
    }
}

/// Parsed statements, in order, and the diagnostics met while parsing,
/// in the order they were found.
#[derive(Debug)]
pub struct Program {
    stmts: Vec<Stmt>,
    errors: Vec<String>,
}

impl Program {
    /// The statements held, in the order they were appended.
    pub closed spec fn stmt_seq(&self) -> Seq<Stmt> {
        self.stmts@
    }

    /// The diagnostics held, in the order they were appended.
    pub closed spec fn error_seq(&self) -> Seq<String> {
        self.errors@
    }

    /// No statement of the program holds a placeholder.
    pub open spec fn renderable(&self) -> bool {
        forall|i: int| 0 <= i < self.stmt_seq().len() ==> (#[trigger] self.stmt_seq()[i]).renderable()
    }

    /// The canonical text of the program: the statements' texts
    /// concatenated; diagnostics are left out.
    pub open spec fn text(&self) -> Seq<char> {
        stmts_text(self.stmt_seq())
    }

    /// An empty program.
    pub fn new() -> (r: Program)
        ensures
            r.stmt_seq() == Seq::<Stmt>::empty(),
            r.error_seq() == Seq::<String>::empty(),
    {
        Program { stmts: Vec::new(), errors: Vec::new() }
    }

    /// The statements, in the order they were appended.
    pub fn stmts(&self) -> (r: &Vec<Stmt>)
        ensures
            r@ == self.stmt_seq(),
    {
        &self.stmts
    }

    /// The diagnostics, in the order they were appended.
    pub fn errors(&self) -> (r: &Vec<String>)
        ensures
            r@ == self.error_seq(),
    {
        &self.errors
    }

    /// Appends a statement at the end; diagnostics are untouched.
    pub fn push_stmt(&mut self, stmt: Stmt)
        ensures
            final(self).stmt_seq() == old(self).stmt_seq().push(stmt),
            final(self).error_seq() == old(self).error_seq(),
    {
        self.stmts.push(stmt);
    }

    /// Appends a diagnostic at the end; statements, and so the program's
    /// text, are untouched.
    pub fn push_error(&mut self, error: String)
        ensures
            final(self).error_seq() == old(self).error_seq().push(error),
            final(self).stmt_seq() == old(self).stmt_seq(),
            final(self).text() == old(self).text(),
    {
        self.errors.push(error);
    }

    /// The canonical text of the program. No statement may hold a
    /// placeholder.
    pub fn to_string(&self) -> (r: String)
        requires
            self.renderable(),
        ensures
            r@ == self.text(),
    {
        let mut out = String::new();
        let mut i: usize = 0;
        while i < self.stmts.len()
            invariant
                0 <= i <= self.stmts@.len(),
                self.renderable(),
                out@ == stmts_text(self.stmts@.subrange(0, i as int)),
            decreases self.stmts@.len() - i,
        {
            proof {
                assert(self.stmts@[i as int] == self.stmt_seq()[i as int]);
                let next = self.stmts@.subrange(0, i + 1);
                assert(next.drop_last() =~= self.stmts@.subrange(0, i as int));
            }
            self.stmts[i].write_to(&mut out);
            i = i + 1;
        }
        assert(self.stmts@.subrange(0, i as int) =~= self.stmts@);
        out
    }
}

/// Structurally equal expressions render to the same text, and one holds
/// a placeholder exactly when the other does.
pub proof fn lemma_same_expr_same_text(a: Expr, b: Expr)
    requires
        a.same(b),
    ensures
        a.text() == b.text(),
        a.renderable() == b.renderable(),
    decreases a,
{
    match a {
        Expr::Prefix(_, x) => {
            if let Expr::Prefix(_, y) = b {
                lemma_same_expr_same_text(*x, *y);
            }
        },
        Expr::Infix(_, x1, x2) => {
            if let Expr::Infix(_, y1, y2) = b {
                lemma_same_expr_same_text(*x1, *y1);
                lemma_same_expr_same_text(*x2, *y2);
            }
        },
        _ => {},
    }
}

/// Structurally equal statements render to the same text.
pub proof fn lemma_same_stmt_same_text(a: Stmt, b: Stmt)
    requires
        a.same(b),
    ensures
        a.text() == b.text(),
        a.renderable() == b.renderable(),
{
    match a {
        Stmt::Let(t1, v1) => {
            if let Stmt::Let(t2, v2) = b {
                lemma_same_expr_same_text(t1, t2);
                lemma_same_expr_same_text(v1, v2);
            }
        },
        Stmt::Ret(v1) => {
            if let Stmt::Ret(v2) = b {
                lemma_same_expr_same_text(v1, v2);
            }
        },
        Stmt::Expr(v1) => {
            if let Stmt::Expr(v2) = b {
                lemma_same_expr_same_text(v1, v2);
            }
        },
    }
}

/// An infix expression whose left operand is itself infix renders with
/// both applications parenthesised: `((a op2 b) op c)` with no spaces.
pub proof fn lemma_nested_infix_text(op: Token, op2: Token, a: Expr, b: Expr, c: Expr)
    ensures
        Expr::Infix(op, Box::new(Expr::Infix(op2, Box::new(a), Box::new(b))), Box::new(c)).text()
            == seq!['(', '('] + a.text() + op2.text() + b.text() + seq![')'] + op.text() + c.text()
            + seq![')'],
{
    let inner = Expr::Infix(op2, Box::new(a), Box::new(b));
    let outer = Expr::Infix(op, Box::new(inner), Box::new(c));
    assert(inner.text() == seq!['('] + a.text() + op2.text() + b.text() + seq![')']);
    assert(outer.text() == seq!['('] + inner.text() + op.text() + c.text() + seq![')']);
    assert(outer.text() =~= seq!['(', '('] + a.text() + op2.text() + b.text() + seq![')']
        + op.text() + c.text() + seq![')']);
}

/// Appending a statement appends its text to the program's text, with no
/// separator.
pub proof fn lemma_program_text_push(before: Program, after: Program, stmt: Stmt)
    requires
        after.stmt_seq() == before.stmt_seq().push(stmt),
    ensures
        after.text() == before.text() + stmt.text(),
{
    assert(after.stmt_seq().drop_last() =~= before.stmt_seq());
}

/// A program of two statements renders to their texts side by side.
pub proof fn lemma_two_stmts_text(p: Program, first: Stmt, second: Stmt)
    requires
        p.stmt_seq() == seq![first, second],
    ensures
        p.text() == first.text() + second.text(),
{
    let s = p.stmt_seq();
    let one = seq![first];
    assert(s.drop_last() =~= one);
    assert(one.drop_last() =~= Seq::<Stmt>::empty());
    assert(stmts_text(one) == stmts_text(Seq::<Stmt>::empty()) + first.text());
    assert(stmts_text(one) =~= first.text());
}

/// Programs that hold the same statements render alike, whatever
/// diagnostics each holds.
pub proof fn lemma_errors_not_rendered(p: Program, q: Program)
    requires
        p.stmt_seq() == q.stmt_seq(),
    ensures
        p.text() == q.text(),
{
}

} // verus!

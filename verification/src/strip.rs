//! Stripping of position metadata. Every span in the tree is replaced by the
//! dummy span; scope-context tags are preserved when later hygiene resolution
//! still needs them, and discarded otherwise. Position metadata never
//! participates in equality: a tree is stripped before any comparison.
use vstd::prelude::*;

use crate::ast::dummy_span;
use crate::ast::view_declarator;
use crate::ast::view_stmt;
use crate::ast::view_stmts;
use crate::ast::Expr;
use crate::ast::Ident;
use crate::ast::Module;
use crate::ast::Pat;
use crate::ast::PatOrExpr;
use crate::ast::SExpr;
use crate::ast::SIdent;
use crate::ast::SModule;
use crate::ast::SPat;
use crate::ast::SPatOrExpr;
use crate::ast::SStmt;
use crate::ast::SVarDecl;
use crate::ast::SVarDeclarator;
use crate::ast::Span;
use crate::ast::Stmt;
use crate::ast::VarDecl;
use crate::ast::VarDeclarator;

verus! {

pub open spec fn strip_ident_s(i: SIdent, preserve_ctxt: bool) -> SIdent {
    SIdent {
        sym: i.sym,
        span: dummy_span(),
        ctxt: if preserve_ctxt {
            i.ctxt
        } else {
            0
        },
    }
}

pub open spec fn strip_expr_s(e: SExpr, preserve_ctxt: bool) -> SExpr
    decreases e,
{
    match e {
        SExpr::Ident(i) => SExpr::Ident(strip_ident_s(i, preserve_ctxt)),
        SExpr::Num { value, span } => SExpr::Num { value, span: dummy_span() },
        SExpr::Assign { target, value, span } => SExpr::Assign {
            target: Box::new(strip_poe_s(*target, preserve_ctxt)),
            value: Box::new(strip_expr_s(*value, preserve_ctxt)),
            span: dummy_span(),
        },
    }
}

pub open spec fn strip_pat_s(p: SPat, preserve_ctxt: bool) -> SPat
    decreases p,
{
    match p {
        SPat::Id(i) => SPat::Id(strip_ident_s(i, preserve_ctxt)),
        SPat::Expr(e) => SPat::Expr(Box::new(strip_expr_s(*e, preserve_ctxt))),
    }
}

pub open spec fn strip_poe_s(p: SPatOrExpr, preserve_ctxt: bool) -> SPatOrExpr
    decreases p,
{
    match p {
        SPatOrExpr::Pat(pat) => SPatOrExpr::Pat(Box::new(strip_pat_s(*pat, preserve_ctxt))),
        SPatOrExpr::Expr(e) => SPatOrExpr::Expr(Box::new(strip_expr_s(*e, preserve_ctxt))),
    }
}

pub open spec fn strip_declarator_s(d: SVarDeclarator, preserve_ctxt: bool) -> SVarDeclarator {
    SVarDeclarator {
        name: strip_pat_s(d.name, preserve_ctxt),
        init: match d.init {
            Some(e) => Some(strip_expr_s(e, preserve_ctxt)),
            None => None,
        },
        span: dummy_span(),
    }
}

pub open spec fn strip_vardecl_s(d: SVarDecl, preserve_ctxt: bool) -> SVarDecl {
    SVarDecl {
        kind: d.kind,
        decls: d.decls.map_values(|x: SVarDeclarator| strip_declarator_s(x, preserve_ctxt)),
        span: dummy_span(),
    }
}

pub open spec fn strip_stmt_s(s: SStmt, preserve_ctxt: bool) -> SStmt {
    match s {
        SStmt::Expr { expr, span } => SStmt::Expr {
            expr: strip_expr_s(expr, preserve_ctxt),
            span: dummy_span(),
        },
        SStmt::Decl(d) => SStmt::Decl(strip_vardecl_s(d, preserve_ctxt)),
    }
}

pub open spec fn strip_module_s(m: SModule, preserve_ctxt: bool) -> SModule {
    SModule {
        body: m.body.map_values(|s: SStmt| strip_stmt_s(s, preserve_ctxt)),
        span: dummy_span(),
    }
}

// ------------------------------------------------------------------
// Executable stripping.
// ------------------------------------------------------------------

fn strip_ident(i: &Ident, preserve_ctxt: bool) -> (r: Ident)
    ensures
        r@ == strip_ident_s(i@, preserve_ctxt),
{
    Ident {
        sym: i.sym.clone(),
        span: Span { lo: 0, hi: 0 },
        ctxt: if preserve_ctxt {
            i.ctxt
        } else {
            0
        },
    }
}

fn strip_expr(e: &Expr, preserve_ctxt: bool) -> (r: Expr)
    ensures
        r@ == strip_expr_s(e@, preserve_ctxt),
    decreases *e,
{
    match e {
        Expr::Ident(i) => Expr::Ident(strip_ident(i, preserve_ctxt)),
        Expr::Num { value, span } => Expr::Num { value: *value, span: Span { lo: 0, hi: 0 } },
        Expr::Assign { target, value, span } => Expr::Assign {
            target: Box::new(strip_poe(&**target, preserve_ctxt)),
            value: Box::new(strip_expr(&**value, preserve_ctxt)),
            span: Span { lo: 0, hi: 0 },
        },
    }
}

fn strip_pat(p: &Pat, preserve_ctxt: bool) -> (r: Pat)
    ensures
        r@ == strip_pat_s(p@, preserve_ctxt),
    decreases *p,
{
    match p {
        Pat::Id(i) => Pat::Id(strip_ident(i, preserve_ctxt)),
        Pat::Expr(e) => Pat::Expr(Box::new(strip_expr(&**e, preserve_ctxt))),
    }
}

fn strip_poe(p: &PatOrExpr, preserve_ctxt: bool) -> (r: PatOrExpr)
    ensures
        r@ == strip_poe_s(p@, preserve_ctxt),
    decreases *p,
{
    match p {
        PatOrExpr::Pat(pat) => PatOrExpr::Pat(Box::new(strip_pat(&**pat, preserve_ctxt))),
        PatOrExpr::Expr(e) => PatOrExpr::Expr(Box::new(strip_expr(&**e, preserve_ctxt))),
    }
}

fn strip_declarator(d: &VarDeclarator, preserve_ctxt: bool) -> (r: VarDeclarator)
    ensures
        view_declarator(r) == strip_declarator_s(view_declarator(*d), preserve_ctxt),
{
    VarDeclarator {
        name: strip_pat(&d.name, preserve_ctxt),
        init: match &d.init {
            Some(e) => Some(strip_expr(e, preserve_ctxt)),
            None => None,
        },
        span: Span { lo: 0, hi: 0 },
    }
}

fn strip_vardecl(d: &VarDecl, preserve_ctxt: bool) -> (r: VarDecl)
    ensures
        crate::ast::view_vardecl(r) == strip_vardecl_s(crate::ast::view_vardecl(*d), preserve_ctxt),
{
    let mut decls: Vec<VarDeclarator> = Vec::new();
    let ghost orig = d.decls@.map_values(|x: VarDeclarator| view_declarator(x));
    let mut i: usize = 0;
    while i < d.decls.len()
        invariant
            i <= d.decls.len(),
            decls@.len() == i,
            orig == d.decls@.map_values(|x: VarDeclarator| view_declarator(x)),
            forall|j: int|
                0 <= j < i ==> view_declarator(decls@[j]) == strip_declarator_s(
                    orig[j],
                    preserve_ctxt,
                ),
        decreases d.decls.len() - i,
    {
        decls.push(strip_declarator(&d.decls[i], preserve_ctxt));
        i += 1;
    }
    let r = VarDecl { kind: d.kind, decls, span: Span { lo: 0, hi: 0 } };
    proof {
        assert(r.decls@.map_values(|x: VarDeclarator| view_declarator(x)) =~= orig.map_values(
            |x: SVarDeclarator| strip_declarator_s(x, preserve_ctxt),
        ));
    }
    r
}

fn strip_stmt(s: &Stmt, preserve_ctxt: bool) -> (r: Stmt)
    ensures
        r@ == strip_stmt_s(s@, preserve_ctxt),
{
    match s {
        Stmt::Expr { expr, span } => Stmt::Expr {
            expr: strip_expr(expr, preserve_ctxt),
            span: Span { lo: 0, hi: 0 },
        },
        Stmt::Decl(d) => Stmt::Decl(strip_vardecl(d, preserve_ctxt)),
    }
}

/// Strips position metadata from the whole tree; scope-context tags are kept
/// exactly when `preserve_ctxt` is set.
pub fn strip_module(m: &Module, preserve_ctxt: bool) -> (r: Module)
    ensures
        r@ == strip_module_s(m@, preserve_ctxt),
{
    let mut body: Vec<Stmt> = Vec::new();
    let ghost orig = view_stmts(m.body@);
    let mut i: usize = 0;
    while i < m.body.len()
        invariant
            i <= m.body.len(),
            body@.len() == i,
            orig == view_stmts(m.body@),
            forall|j: int| 0 <= j < i ==> view_stmt(body@[j]) == strip_stmt_s(orig[j], preserve_ctxt),
        decreases m.body.len() - i,
    {
        body.push(strip_stmt(&m.body[i], preserve_ctxt));
        i += 1;
    }
    let r = Module { body, span: Span { lo: 0, hi: 0 } };
    proof {
        assert(view_stmts(r.body@) =~= orig.map_values(
            |s: SStmt| strip_stmt_s(s, preserve_ctxt),
        ));
    }
    r
}

// ------------------------------------------------------------------
// Stripping is idempotent: a stripped tree strips to itself.
// ------------------------------------------------------------------

pub proof fn lemma_strip_expr_idempotent(e: SExpr, pc: bool)
    ensures
        strip_expr_s(strip_expr_s(e, pc), pc) == strip_expr_s(e, pc),
    decreases e,
{
    match e {
        SExpr::Assign { target, value, span } => {
            lemma_strip_poe_idempotent(*target, pc);
            lemma_strip_expr_idempotent(*value, pc);
        },
        _ => {},
    }
}

pub proof fn lemma_strip_pat_idempotent(p: SPat, pc: bool)
    ensures
        strip_pat_s(strip_pat_s(p, pc), pc) == strip_pat_s(p, pc),
    decreases p,
{
    match p {
        SPat::Expr(e) => {
            lemma_strip_expr_idempotent(*e, pc);
        },
        _ => {},
    }
}

pub proof fn lemma_strip_poe_idempotent(p: SPatOrExpr, pc: bool)
    ensures
        strip_poe_s(strip_poe_s(p, pc), pc) == strip_poe_s(p, pc),
    decreases p,
{
    match p {
        SPatOrExpr::Pat(pat) => {
            lemma_strip_pat_idempotent(*pat, pc);
        },
        SPatOrExpr::Expr(e) => {
            lemma_strip_expr_idempotent(*e, pc);
        },
    }
}

pub proof fn lemma_strip_declarator_idempotent(d: SVarDeclarator, pc: bool)
    ensures
        strip_declarator_s(strip_declarator_s(d, pc), pc) == strip_declarator_s(d, pc),
{
    lemma_strip_pat_idempotent(d.name, pc);
    match d.init {
        Some(e) => lemma_strip_expr_idempotent(e, pc),
        None => {},
    }
}

pub proof fn lemma_strip_vardecl_idempotent(d: SVarDecl, pc: bool)
    ensures
        strip_vardecl_s(strip_vardecl_s(d, pc), pc) == strip_vardecl_s(d, pc),
{
    let once = strip_vardecl_s(d, pc);
    assert forall|j: int| 0 <= j < once.decls.len() implies strip_declarator_s(
        once.decls[j],
        pc,
    ) == once.decls[j] by {
        lemma_strip_declarator_idempotent(d.decls[j], pc);
    }
    assert(strip_vardecl_s(once, pc).decls =~= once.decls);
}

pub proof fn lemma_strip_stmt_idempotent(s: SStmt, pc: bool)
    ensures
        strip_stmt_s(strip_stmt_s(s, pc), pc) == strip_stmt_s(s, pc),
{
    match s {
        SStmt::Expr { expr, span } => lemma_strip_expr_idempotent(expr, pc),
        SStmt::Decl(d) => lemma_strip_vardecl_idempotent(d, pc),
    }
}

/// For every tree, stripping position metadata is idempotent:
/// stripping a stripped tree changes nothing.
pub proof fn lemma_strip_module_idempotent(m: SModule, pc: bool)
    ensures
        strip_module_s(strip_module_s(m, pc), pc) == strip_module_s(m, pc),
{
    let once = strip_module_s(m, pc);
    assert forall|j: int| 0 <= j < once.body.len() implies strip_stmt_s(once.body[j], pc)
        == once.body[j] by {
        lemma_strip_stmt_idempotent(m.body[j], pc);
    }
    assert(strip_module_s(once, pc).body =~= once.body);
}

} // verus!

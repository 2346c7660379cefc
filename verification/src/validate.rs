//! The internal consistency check run over trees at the pipeline's
//! checkpoints: every span in a well-formed tree is a proper range. A tree
//! that fails the check aborts the run before any later stage sees it.
use vstd::prelude::*;

use crate::ast::view_declarator;
use crate::ast::view_stmts;
use crate::ast::Expr;
use crate::ast::Module;
use crate::ast::Pat;
use crate::ast::PatOrExpr;
use crate::ast::SExpr;
use crate::ast::SIdent;
use crate::ast::SModule;
use crate::ast::SPat;
use crate::ast::SPatOrExpr;
use crate::ast::SStmt;
use crate::ast::SVarDecl;
use crate::ast::SVarDeclarator;
use crate::ast::Span;
use crate::ast::Stmt;
use crate::ast::VarDecl;
use crate::ast::VarDeclarator;

verus! {

pub open spec fn wf_span(s: Span) -> bool {
    s.lo <= s.hi
}

pub open spec fn wf_ident_s(i: SIdent) -> bool {
    wf_span(i.span)
}

pub open spec fn wf_expr_s(e: SExpr) -> bool
    decreases e,
{
    match e {
        SExpr::Ident(i) => wf_ident_s(i),
        SExpr::Num { value, span } => wf_span(span),
        SExpr::Assign { target, value, span } => wf_span(span) && wf_poe_s(*target) && wf_expr_s(
            *value,
        ),
    }
}

pub open spec fn wf_pat_s(p: SPat) -> bool
    decreases p,
{
    match p {
        SPat::Id(i) => wf_ident_s(i),
        SPat::Expr(e) => wf_expr_s(*e),
    }
}

pub open spec fn wf_poe_s(p: SPatOrExpr) -> bool
    decreases p,
{
    match p {
        SPatOrExpr::Pat(pat) => wf_pat_s(*pat),
        SPatOrExpr::Expr(e) => wf_expr_s(*e),
    }
}

pub open spec fn wf_declarator_s(d: SVarDeclarator) -> bool {
    wf_span(d.span) && wf_pat_s(d.name) && match d.init {
        Some(e) => wf_expr_s(e),
        None => true,
    }
}

pub open spec fn wf_decls_s(ds: Seq<SVarDeclarator>) -> bool
    decreases ds.len(),
{
    ds.len() == 0 || (wf_declarator_s(ds[0]) && wf_decls_s(ds.drop_first()))
}

pub open spec fn wf_vardecl_s(d: SVarDecl) -> bool {
    wf_span(d.span) && wf_decls_s(d.decls)
}

pub open spec fn wf_stmt_s(s: SStmt) -> bool {
    match s {
        SStmt::Expr { expr, span } => wf_span(span) && wf_expr_s(expr),
        SStmt::Decl(d) => wf_vardecl_s(d),
    }
}

pub open spec fn wf_stmts_s(ss: Seq<SStmt>) -> bool
    decreases ss.len(),
{
    ss.len() == 0 || (wf_stmt_s(ss[0]) && wf_stmts_s(ss.drop_first()))
}

pub open spec fn wf_module_s(m: SModule) -> bool {
    wf_span(m.span) && wf_stmts_s(m.body)
}

// ------------------------------------------------------------------
// Executable checking.
// ------------------------------------------------------------------

fn validate_span(s: &Span) -> (r: bool)
    ensures
        r == wf_span(*s),
{
    s.lo <= s.hi
}

fn validate_expr(e: &Expr) -> (r: bool)
    ensures
        r == wf_expr_s(e@),
    decreases *e,
{
    match e {
        Expr::Ident(i) => validate_span(&i.span),
        Expr::Num { value, span } => validate_span(span),
        Expr::Assign { target, value, span } => {
            validate_span(span) && validate_poe(&**target) && validate_expr(&**value)
        },
    }
}

fn validate_pat(p: &Pat) -> (r: bool)
    ensures
        r == wf_pat_s(p@),
    decreases *p,
{
    match p {
        Pat::Id(i) => validate_span(&i.span),
        Pat::Expr(e) => validate_expr(&**e),
    }
}

fn validate_poe(p: &PatOrExpr) -> (r: bool)
    ensures
        r == wf_poe_s(p@),
    decreases *p,
{
    match p {
        PatOrExpr::Pat(pat) => validate_pat(&**pat),
        PatOrExpr::Expr(e) => validate_expr(&**e),
    }
}

fn validate_declarator(d: &VarDeclarator) -> (r: bool)
    ensures
        r == wf_declarator_s(view_declarator(*d)),
{
    validate_span(&d.span) && validate_pat(&d.name) && match &d.init {
        Some(e) => validate_expr(e),
        None => true,
    }
}

fn validate_decls(decls: &Vec<VarDeclarator>, i: usize) -> (r: bool)
    requires
        i <= decls.len(),
    ensures
        r == wf_decls_s(
            decls@.map_values(|x: VarDeclarator| view_declarator(x)).skip(i as int),
        ),
    decreases decls.len() - i,
{
    let ghost ds = decls@.map_values(|x: VarDeclarator| view_declarator(x));
    if i == decls.len() {
        proof {
            assert(ds.skip(i as int) =~= Seq::<SVarDeclarator>::empty());
        }
        true
    } else {
        let head = validate_declarator(&decls[i]);
        if !head {
            return false;
        }
        let rest = validate_decls(decls, i + 1);
        proof {
            assert(ds.skip(i as int).drop_first() =~= ds.skip(i as int + 1));
            assert(ds.skip(i as int)[0] == ds[i as int]);
        }
        rest
    }
}

fn validate_vardecl(d: &VarDecl) -> (r: bool)
    ensures
        r == wf_vardecl_s(crate::ast::view_vardecl(*d)),
{
    let span_ok = validate_span(&d.span);
    let decls_ok = validate_decls(&d.decls, 0);
    proof {
        assert(d.decls@.map_values(|x: VarDeclarator| view_declarator(x)).skip(0)
            =~= d.decls@.map_values(|x: VarDeclarator| view_declarator(x)));
    }
    span_ok && decls_ok
}

fn validate_stmt(s: &Stmt) -> (r: bool)
    ensures
        r == wf_stmt_s(s@),
{
    match s {
        Stmt::Expr { expr, span } => validate_span(span) && validate_expr(expr),
        Stmt::Decl(d) => validate_vardecl(d),
    }
}

fn validate_stmts(body: &Vec<Stmt>, i: usize) -> (r: bool)
    requires
        i <= body.len(),
    ensures
        r == wf_stmts_s(view_stmts(body@).skip(i as int)),
    decreases body.len() - i,
{
    let ghost ss = view_stmts(body@);
    if i == body.len() {
        proof {
            assert(ss.skip(i as int) =~= Seq::<SStmt>::empty());
        }
        true
    } else {
        let head = validate_stmt(&body[i]);
        if !head {
            return false;
        }
        let rest = validate_stmts(body, i + 1);
        proof {
            assert(ss.skip(i as int).drop_first() =~= ss.skip(i as int + 1));
            assert(ss.skip(i as int)[0] == ss[i as int]);
        }
        rest
    }
}

/// Decides whether the tree invariant holds; checkpoints fail fast on `false`.
pub fn validate(m: &Module) -> (r: bool)
    ensures
        r == wf_module_s(m@),
{
    let span_ok = validate_span(&m.span);
    let body_ok = validate_stmts(&m.body, 0);
    proof {
        assert(view_stmts(m.body@).skip(0) =~= view_stmts(m.body@));
    }
    span_ok && body_ok
}

} // verus!

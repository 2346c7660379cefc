//! Hygiene visualization, a diagnostic-only pass: every identifier's symbol
//! is suffixed with its scope-context tag, so that same-named bindings from
//! different scopes become distinguishable in a rendering. It never feeds
//! into a comparison and never affects a verdict.
use vstd::prelude::*;

use crate::ast::view_declarator;
use crate::ast::view_stmt;
use crate::ast::view_stmts;
use crate::ast::Expr;
use crate::ast::Ident;
use crate::ast::Module;
use crate::ast::Pat;
use crate::ast::PatOrExpr;
use crate::ast::SExpr;
use crate::ast::SIdent;
use crate::ast::SModule;
use crate::ast::SPat;
use crate::ast::SPatOrExpr;
use crate::ast::SStmt;
use crate::ast::SVarDecl;
use crate::ast::SVarDeclarator;
use crate::ast::Stmt;
use crate::ast::VarDecl;
use crate::ast::VarDeclarator;
use crate::print::dec_str;

verus! {

pub open spec fn viz_ident_s(i: SIdent) -> SIdent {
    SIdent { sym: i.sym + "#"@ + dec_str(i.ctxt as u64), span: i.span, ctxt: i.ctxt }
}

pub open spec fn viz_expr_s(e: SExpr) -> SExpr
    decreases e,
{
    match e {
        SExpr::Ident(i) => SExpr::Ident(viz_ident_s(i)),
        SExpr::Num { value, span } => SExpr::Num { value, span },
        SExpr::Assign { target, value, span } => SExpr::Assign {
            target: Box::new(viz_poe_s(*target)),
            value: Box::new(viz_expr_s(*value)),
            span,
        },
    }
}

pub open spec fn viz_pat_s(p: SPat) -> SPat
    decreases p,
{
    match p {
        SPat::Id(i) => SPat::Id(viz_ident_s(i)),
        SPat::Expr(e) => SPat::Expr(Box::new(viz_expr_s(*e))),
    }
}

pub open spec fn viz_poe_s(p: SPatOrExpr) -> SPatOrExpr
    decreases p,
{
    match p {
        SPatOrExpr::Pat(pat) => SPatOrExpr::Pat(Box::new(viz_pat_s(*pat))),
        SPatOrExpr::Expr(e) => SPatOrExpr::Expr(Box::new(viz_expr_s(*e))),
    }
}

pub open spec fn viz_declarator_s(d: SVarDeclarator) -> SVarDeclarator {
    SVarDeclarator {
        name: viz_pat_s(d.name),
        init: match d.init {
            Some(e) => Some(viz_expr_s(e)),
            None => None,
        },
        span: d.span,
    }
}

pub open spec fn viz_vardecl_s(d: SVarDecl) -> SVarDecl {
    SVarDecl {
        kind: d.kind,
        decls: d.decls.map_values(|x: SVarDeclarator| viz_declarator_s(x)),
        span: d.span,
    }
}

pub open spec fn viz_stmt_s(s: SStmt) -> SStmt {
    match s {
        SStmt::Expr { expr, span } => SStmt::Expr { expr: viz_expr_s(expr), span },
        SStmt::Decl(d) => SStmt::Decl(viz_vardecl_s(d)),
    }
}

pub open spec fn viz_module_s(m: SModule) -> SModule {
    SModule { body: m.body.map_values(|s: SStmt| viz_stmt_s(s)), span: m.span }
}

// ------------------------------------------------------------------
// Executable pass.
// ------------------------------------------------------------------

fn viz_ident(i: &Ident) -> (r: Ident)
    ensures
        r@ == viz_ident_s(i@),
{
    let mut sym = i.sym.clone();
    sym.append("#");
    crate::print::render_ctxt(i.ctxt, &mut sym);
    proof {
        assert(sym@ =~= i.sym@ + "#"@ + dec_str(i.ctxt as u64));
    }
    Ident { sym, span: i.span, ctxt: i.ctxt }
}

fn viz_expr(e: &Expr) -> (r: Expr)
    ensures
        r@ == viz_expr_s(e@),
    decreases *e,
{
    match e {
        Expr::Ident(i) => Expr::Ident(viz_ident(i)),
        Expr::Num { value, span } => Expr::Num { value: *value, span: *span },
        Expr::Assign { target, value, span } => Expr::Assign {
            target: Box::new(viz_poe(&**target)),
            value: Box::new(viz_expr(&**value)),
            span: *span,
        },
    }
}

fn viz_pat(p: &Pat) -> (r: Pat)
    ensures
        r@ == viz_pat_s(p@),
    decreases *p,
{
    match p {
        Pat::Id(i) => Pat::Id(viz_ident(i)),
        Pat::Expr(e) => Pat::Expr(Box::new(viz_expr(&**e))),
    }
}

fn viz_poe(p: &PatOrExpr) -> (r: PatOrExpr)
    ensures
        r@ == viz_poe_s(p@),
    decreases *p,
{
    match p {
        PatOrExpr::Pat(pat) => PatOrExpr::Pat(Box::new(viz_pat(&**pat))),
        PatOrExpr::Expr(e) => PatOrExpr::Expr(Box::new(viz_expr(&**e))),
    }
}

fn viz_declarator(d: &VarDeclarator) -> (r: VarDeclarator)
    ensures
        view_declarator(r) == viz_declarator_s(view_declarator(*d)),
{
    VarDeclarator {
        name: viz_pat(&d.name),
        init: match &d.init {
            Some(e) => Some(viz_expr(e)),
            None => None,
        },
        span: d.span,
    }
}

fn viz_vardecl(d: &VarDecl) -> (r: VarDecl)
    ensures
        crate::ast::view_vardecl(r) == viz_vardecl_s(crate::ast::view_vardecl(*d)),
{
    let mut decls: Vec<VarDeclarator> = Vec::new();
    let ghost orig = d.decls@.map_values(|x: VarDeclarator| view_declarator(x));
    let mut i: usize = 0;
    while i < d.decls.len()
        invariant
            i <= d.decls.len(),
            decls@.len() == i,
            orig == d.decls@.map_values(|x: VarDeclarator| view_declarator(x)),
            forall|j: int| 0 <= j < i ==> view_declarator(decls@[j]) == viz_declarator_s(orig[j]),
        decreases d.decls.len() - i,
    {
        decls.push(viz_declarator(&d.decls[i]));
        i += 1;
    }
    let r = VarDecl { kind: d.kind, decls, span: d.span };
    proof {
        assert(r.decls@.map_values(|x: VarDeclarator| view_declarator(x)) =~= orig.map_values(
            |x: SVarDeclarator| viz_declarator_s(x),
        ));
    }
    r
}

fn viz_stmt(s: &Stmt) -> (r: Stmt)
    ensures
        r@ == viz_stmt_s(s@),
{
    match s {
        Stmt::Expr { expr, span } => Stmt::Expr { expr: viz_expr(expr), span: *span },
        Stmt::Decl(d) => Stmt::Decl(viz_vardecl(d)),
    }
}

/// Produces the hygiene-annotated copy of a tree for diagnostic rendering.
pub fn hygiene_visualize(m: &Module) -> (r: Module)
    ensures
        r@ == viz_module_s(m@),
{
    let mut body: Vec<Stmt> = Vec::new();
    let ghost orig = view_stmts(m.body@);
    let mut i: usize = 0;
    while i < m.body.len()
        invariant
            i <= m.body.len(),
            body@.len() == i,
            orig == view_stmts(m.body@),
            forall|j: int| 0 <= j < i ==> view_stmt(body@[j]) == viz_stmt_s(orig[j]),
        decreases m.body.len() - i,
    {
        body.push(viz_stmt(&m.body[i]));
        i += 1;
    }
    let r = Module { body, span: m.span };
    proof {
        assert(view_stmts(r.body@) =~= orig.map_values(|s: SStmt| viz_stmt_s(s)));
    }
    r
}

} // verus!

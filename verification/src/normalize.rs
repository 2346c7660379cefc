//! Canonicalization: a minor pass correcting trivial, transform-irrelevant
//! representation differences. The one difference the model exhibits is a
//! destructuring target carried as an expression wrapped in a pattern, which
//! is collapsed back into the plain expression form. The rewrite is local to
//! each destructuring-target node the traversal reaches: the node's own
//! subtree is handed back untouched, so the pass corrects only the
//! parser-representation artifact at that node and can never rewrite — and
//! thereby mask — a difference a transform produced deeper inside it.
use vstd::prelude::*;

use crate::ast::copy_expr;
use crate::ast::copy_ident;
use crate::ast::view_declarator;
use crate::ast::view_stmt;
use crate::ast::view_stmts;
use crate::ast::Expr;
use crate::ast::Module;
use crate::ast::Pat;
use crate::ast::PatOrExpr;
use crate::ast::SExpr;
use crate::ast::SModule;
use crate::ast::SPat;
use crate::ast::SPatOrExpr;
use crate::ast::SStmt;
use crate::ast::SVarDecl;
use crate::ast::SVarDeclarator;
use crate::ast::Stmt;
use crate::ast::VarDecl;
use crate::ast::VarDeclarator;
use crate::strip::strip_declarator_s;
use crate::strip::strip_expr_s;
use crate::strip::strip_pat_s;
use crate::strip::strip_poe_s;
use crate::strip::strip_stmt_s;
use crate::strip::strip_vardecl_s;
use crate::strip::strip_module_s;

verus! {

/// The local rewrite at one destructuring-target node: an expression wrapped
/// as a pattern collapses to the plain expression form; every other target is
/// returned as it stands. In either case the node's subtree is untouched.
pub open spec fn normalize_poe_s(p: SPatOrExpr) -> SPatOrExpr {
    match p {
        SPatOrExpr::Pat(pat) => match *pat {
            SPat::Expr(e) => SPatOrExpr::Expr(e),
            SPat::Id(i) => SPatOrExpr::Pat(Box::new(SPat::Id(i))),
        },
        SPatOrExpr::Expr(e) => SPatOrExpr::Expr(e),
    }
}

pub open spec fn normalize_expr_s(e: SExpr) -> SExpr
    decreases e,
{
    match e {
        SExpr::Ident(i) => SExpr::Ident(i),
        SExpr::Num { value, span } => SExpr::Num { value, span },
        SExpr::Assign { target, value, span } => SExpr::Assign {
            target: Box::new(normalize_poe_s(*target)),
            value: Box::new(normalize_expr_s(*value)),
            span,
        },
    }
}

pub open spec fn normalize_pat_s(p: SPat) -> SPat
    decreases p,
{
    match p {
        SPat::Id(i) => SPat::Id(i),
        SPat::Expr(e) => SPat::Expr(Box::new(normalize_expr_s(*e))),
    }
}

pub open spec fn normalize_declarator_s(d: SVarDeclarator) -> SVarDeclarator {
    SVarDeclarator {
        name: normalize_pat_s(d.name),
        init: match d.init {
            Some(e) => Some(normalize_expr_s(e)),
            None => None,
        },
        span: d.span,
    }
}

pub open spec fn normalize_vardecl_s(d: SVarDecl) -> SVarDecl {
    SVarDecl {
        kind: d.kind,
        decls: d.decls.map_values(|x: SVarDeclarator| normalize_declarator_s(x)),
        span: d.span,
    }
}

pub open spec fn normalize_stmt_s(s: SStmt) -> SStmt {
    match s {
        SStmt::Expr { expr, span } => SStmt::Expr { expr: normalize_expr_s(expr), span },
        SStmt::Decl(d) => SStmt::Decl(normalize_vardecl_s(d)),
    }
}

pub open spec fn normalize_module_s(m: SModule) -> SModule {
    SModule { body: m.body.map_values(|s: SStmt| normalize_stmt_s(s)), span: m.span }
}

// ------------------------------------------------------------------
// Executable canonicalization.
// ------------------------------------------------------------------

fn normalize_poe(p: &PatOrExpr) -> (r: PatOrExpr)
    ensures
        r@ == normalize_poe_s(p@),
{
    match p {
        PatOrExpr::Pat(pat) => match &**pat {
            Pat::Expr(e) => PatOrExpr::Expr(Box::new(copy_expr(&**e))),
            Pat::Id(i) => PatOrExpr::Pat(Box::new(Pat::Id(copy_ident(i)))),
        },
        PatOrExpr::Expr(e) => PatOrExpr::Expr(Box::new(copy_expr(&**e))),
    }
}

fn normalize_expr(e: &Expr) -> (r: Expr)
    ensures
        r@ == normalize_expr_s(e@),
    decreases *e,
{
    match e {
        Expr::Ident(i) => Expr::Ident(copy_ident(i)),
        Expr::Num { value, span } => Expr::Num { value: *value, span: *span },
        Expr::Assign { target, value, span } => Expr::Assign {
            target: Box::new(normalize_poe(&**target)),
            value: Box::new(normalize_expr(&**value)),
            span: *span,
        },
    }
}

fn normalize_pat(p: &Pat) -> (r: Pat)
    ensures
        r@ == normalize_pat_s(p@),
    decreases *p,
{
    match p {
        Pat::Id(i) => Pat::Id(copy_ident(i)),
        Pat::Expr(e) => Pat::Expr(Box::new(normalize_expr(&**e))),
    }
}

fn normalize_declarator(d: &VarDeclarator) -> (r: VarDeclarator)
    ensures
        view_declarator(r) == normalize_declarator_s(view_declarator(*d)),
{
    VarDeclarator {
        name: normalize_pat(&d.name),
        init: match &d.init {
            Some(e) => Some(normalize_expr(e)),
            None => None,
        },
        span: d.span,
    }
}

fn normalize_vardecl(d: &VarDecl) -> (r: VarDecl)
    ensures
        crate::ast::view_vardecl(r) == normalize_vardecl_s(crate::ast::view_vardecl(*d)),
{
    let mut decls: Vec<VarDeclarator> = Vec::new();
    let ghost orig = d.decls@.map_values(|x: VarDeclarator| view_declarator(x));
    let mut i: usize = 0;
    while i < d.decls.len()
        invariant
            i <= d.decls.len(),
            decls@.len() == i,
            orig == d.decls@.map_values(|x: VarDeclarator| view_declarator(x)),
            forall|j: int|
                0 <= j < i ==> view_declarator(decls@[j]) == normalize_declarator_s(orig[j]),
        decreases d.decls.len() - i,
    {
        decls.push(normalize_declarator(&d.decls[i]));
        i += 1;
    }
    let r = VarDecl { kind: d.kind, decls, span: d.span };
    proof {
        assert(r.decls@.map_values(|x: VarDeclarator| view_declarator(x)) =~= orig.map_values(
            |x: SVarDeclarator| normalize_declarator_s(x),
        ));
    }
    r
}

fn normalize_stmt(s: &Stmt) -> (r: Stmt)
    ensures
        r@ == normalize_stmt_s(s@),
{
    match s {
        Stmt::Expr { expr, span } => Stmt::Expr { expr: normalize_expr(expr), span: *span },
        Stmt::Decl(d) => Stmt::Decl(normalize_vardecl(d)),
    }
}

/// Collapses expression-wrapped destructuring targets at every target node
/// the traversal reaches, leaving each target's own subtree untouched.
pub fn normalize_module(m: &Module) -> (r: Module)
    ensures
        r@ == normalize_module_s(m@),
{
    let mut body: Vec<Stmt> = Vec::new();
    let ghost orig = view_stmts(m.body@);
    let mut i: usize = 0;
    while i < m.body.len()
        invariant
            i <= m.body.len(),
            body@.len() == i,
            orig == view_stmts(m.body@),
            forall|j: int| 0 <= j < i ==> view_stmt(body@[j]) == normalize_stmt_s(orig[j]),
        decreases m.body.len() - i,
    {
        body.push(normalize_stmt(&m.body[i]));
        i += 1;
    }
    let r = Module { body, span: m.span };
    proof {
        assert(view_stmts(r.body@) =~= orig.map_values(|s: SStmt| normalize_stmt_s(s)));
    }
    r
}

// ------------------------------------------------------------------
// Canonicalization is idempotent, and commutes with stripping.
// ------------------------------------------------------------------

pub proof fn lemma_normalize_poe_idempotent(p: SPatOrExpr)
    ensures
        normalize_poe_s(normalize_poe_s(p)) == normalize_poe_s(p),
{
}

pub proof fn lemma_normalize_expr_idempotent(e: SExpr)
    ensures
        normalize_expr_s(normalize_expr_s(e)) == normalize_expr_s(e),
    decreases e,
{
    match e {
        SExpr::Assign { target, value, span } => {
            lemma_normalize_poe_idempotent(*target);
            lemma_normalize_expr_idempotent(*value);
        },
        _ => {},
    }
}

pub proof fn lemma_normalize_pat_idempotent(p: SPat)
    ensures
        normalize_pat_s(normalize_pat_s(p)) == normalize_pat_s(p),
    decreases p,
{
    match p {
        SPat::Expr(e) => {
            lemma_normalize_expr_idempotent(*e);
        },
        _ => {},
    }
}

pub proof fn lemma_normalize_declarator_idempotent(d: SVarDeclarator)
    ensures
        normalize_declarator_s(normalize_declarator_s(d)) == normalize_declarator_s(d),
{
    lemma_normalize_pat_idempotent(d.name);
    match d.init {
        Some(e) => lemma_normalize_expr_idempotent(e),
        None => {},
    }
}

pub proof fn lemma_normalize_stmt_idempotent(s: SStmt)
    ensures
        normalize_stmt_s(normalize_stmt_s(s)) == normalize_stmt_s(s),
{
    match s {
        SStmt::Expr { expr, span } => lemma_normalize_expr_idempotent(expr),
        SStmt::Decl(d) => {
            let once = normalize_vardecl_s(d);
            assert forall|j: int| 0 <= j < once.decls.len() implies normalize_declarator_s(
                once.decls[j],
            ) == once.decls[j] by {
                lemma_normalize_declarator_idempotent(d.decls[j]);
            }
            assert(normalize_vardecl_s(once).decls =~= once.decls);
        },
    }
}

/// Canonicalizing a canonicalized tree changes nothing.
pub proof fn lemma_normalize_module_idempotent(m: SModule)
    ensures
        normalize_module_s(normalize_module_s(m)) == normalize_module_s(m),
{
    let once = normalize_module_s(m);
    assert forall|j: int| 0 <= j < once.body.len() implies normalize_stmt_s(once.body[j])
        == once.body[j] by {
        lemma_normalize_stmt_idempotent(m.body[j]);
    }
    assert(normalize_module_s(once).body =~= once.body);
}

pub proof fn lemma_normalize_strip_commute_poe(p: SPatOrExpr, pc: bool)
    ensures
        normalize_poe_s(strip_poe_s(p, pc)) == strip_poe_s(normalize_poe_s(p), pc),
{
}

pub proof fn lemma_normalize_strip_commute_expr(e: SExpr, pc: bool)
    ensures
        normalize_expr_s(strip_expr_s(e, pc)) == strip_expr_s(normalize_expr_s(e), pc),
    decreases e,
{
    match e {
        SExpr::Assign { target, value, span } => {
            lemma_normalize_strip_commute_poe(*target, pc);
            lemma_normalize_strip_commute_expr(*value, pc);
        },
        _ => {},
    }
}

pub proof fn lemma_normalize_strip_commute_pat(p: SPat, pc: bool)
    ensures
        normalize_pat_s(strip_pat_s(p, pc)) == strip_pat_s(normalize_pat_s(p), pc),
    decreases p,
{
    match p {
        SPat::Expr(e) => {
            lemma_normalize_strip_commute_expr(*e, pc);
        },
        _ => {},
    }
}

pub proof fn lemma_normalize_strip_commute_declarator(d: SVarDeclarator, pc: bool)
    ensures
        normalize_declarator_s(strip_declarator_s(d, pc)) == strip_declarator_s(
            normalize_declarator_s(d),
            pc,
        ),
{
    lemma_normalize_strip_commute_pat(d.name, pc);
    match d.init {
        Some(e) => lemma_normalize_strip_commute_expr(e, pc),
        None => {},
    }
}

pub proof fn lemma_normalize_strip_commute_stmt(s: SStmt, pc: bool)
    ensures
        normalize_stmt_s(strip_stmt_s(s, pc)) == strip_stmt_s(normalize_stmt_s(s), pc),
{
    match s {
        SStmt::Expr { expr, span } => lemma_normalize_strip_commute_expr(expr, pc),
        SStmt::Decl(d) => {
            assert forall|j: int| 0 <= j < d.decls.len() implies normalize_declarator_s(
                strip_declarator_s(d.decls[j], pc),
            ) == strip_declarator_s(normalize_declarator_s(d.decls[j]), pc) by {
                lemma_normalize_strip_commute_declarator(d.decls[j], pc);
            }
            assert(normalize_vardecl_s(strip_vardecl_s(d, pc)).decls =~= strip_vardecl_s(
                normalize_vardecl_s(d),
                pc,
            ).decls);
        },
    }
}

/// Stripping and canonicalization commute.
pub proof fn lemma_normalize_strip_commute_module(m: SModule, pc: bool)
    ensures
        normalize_module_s(strip_module_s(m, pc)) == strip_module_s(normalize_module_s(m), pc),
{
    assert forall|j: int| 0 <= j < m.body.len() implies normalize_stmt_s(
        strip_stmt_s(m.body[j], pc),
    ) == strip_stmt_s(normalize_stmt_s(m.body[j]), pc) by {
        lemma_normalize_strip_commute_stmt(m.body[j], pc);
    }
    assert(normalize_module_s(strip_module_s(m, pc)).body =~= strip_module_s(
        normalize_module_s(m),
        pc,
    ).body);
}

} // verus!

//! Rendering of a tree to canonical source text. The renderer is
//! deterministic: what it prints is a function of the tree alone, and it
//! prints a plain destructuring target and its expression-wrapped form
//! identically — which is what makes canonicalization invisible in output.
use vstd::prelude::*;

use crate::ast::view_stmts;
use crate::ast::Expr;
use crate::ast::Module;
use crate::ast::Pat;
use crate::ast::PatOrExpr;
use crate::ast::SExpr;
use crate::ast::SModule;
use crate::ast::SPat;
use crate::ast::SPatOrExpr;
use crate::ast::SStmt;
use crate::ast::SVarDecl;
use crate::ast::SVarDeclarator;
use crate::ast::Stmt;
use crate::ast::VarDecl;
use crate::ast::VarDeclarator;
use crate::ast::VarKind;
use crate::normalize::normalize_declarator_s;
use crate::normalize::normalize_expr_s;
use crate::normalize::normalize_module_s;
use crate::normalize::normalize_pat_s;
use crate::normalize::normalize_poe_s;
use crate::normalize::normalize_stmt_s;
use crate::normalize::normalize_vardecl_s;

verus! {

pub open spec fn dec_digit(d: u64) -> char {
    if d == 0 {
        '0'
    } else if d == 1 {
        '1'
    } else if d == 2 {
        '2'
    } else if d == 3 {
        '3'
    } else if d == 4 {
        '4'
    } else if d == 5 {
        '5'
    } else if d == 6 {
        '6'
    } else if d == 7 {
        '7'
    } else if d == 8 {
        '8'
    } else {
        '9'
    }
}

pub open spec fn dec_str(n: u64) -> Seq<char>
    decreases n,
{
    if n < 10 {
        seq![dec_digit(n)]
    } else {
        dec_str((n / 10) as u64).push(dec_digit(n % 10))
    }
}

pub open spec fn print_expr_s(e: SExpr) -> Seq<char>
    decreases e,
{
    match e {
        SExpr::Ident(i) => i.sym,
        SExpr::Num { value, span } => dec_str(value),
        SExpr::Assign { target, value, span } => print_poe_s(*target) + " = "@ + print_expr_s(
            *value,
        ),
    }
}

pub open spec fn print_pat_s(p: SPat) -> Seq<char>
    decreases p,
{
    match p {
        SPat::Id(i) => i.sym,
        SPat::Expr(e) => print_expr_s(*e),
    }
}

pub open spec fn print_poe_s(p: SPatOrExpr) -> Seq<char>
    decreases p,
{
    match p {
        SPatOrExpr::Pat(pat) => print_pat_s(*pat),
        SPatOrExpr::Expr(e) => print_expr_s(*e),
    }
}

pub open spec fn print_declarator_s(d: SVarDeclarator) -> Seq<char> {
    print_pat_s(d.name) + match d.init {
        Some(e) => " = "@ + print_expr_s(e),
        None => Seq::<char>::empty(),
    }
}

pub open spec fn print_decls_rest_s(ds: Seq<SVarDeclarator>) -> Seq<char>
    decreases ds.len(),
{
    if ds.len() == 0 {
        Seq::<char>::empty()
    } else {
        ", "@ + print_declarator_s(ds[0]) + print_decls_rest_s(ds.drop_first())
    }
}

pub open spec fn print_decls_s(ds: Seq<SVarDeclarator>) -> Seq<char> {
    if ds.len() == 0 {
        Seq::<char>::empty()
    } else {
        print_declarator_s(ds[0]) + print_decls_rest_s(ds.drop_first())
    }
}

pub open spec fn kind_str(k: VarKind) -> Seq<char> {
    match k {
        VarKind::Var => "var"@,
        VarKind::Let => "let"@,
        VarKind::Const => "const"@,
    }
}

pub open spec fn print_vardecl_s(d: SVarDecl) -> Seq<char> {
    kind_str(d.kind) + " "@ + print_decls_s(d.decls)
}

pub open spec fn print_stmt_s(s: SStmt) -> Seq<char> {
    match s {
        SStmt::Expr { expr, span } => print_expr_s(expr) + ";\n"@,
        SStmt::Decl(d) => print_vardecl_s(d) + ";\n"@,
    }
}

pub open spec fn print_stmts_s(ss: Seq<SStmt>) -> Seq<char>
    decreases ss.len(),
{
    if ss.len() == 0 {
        Seq::<char>::empty()
    } else {
        print_stmt_s(ss[0]) + print_stmts_s(ss.drop_first())
    }
}

pub open spec fn print_module_s(m: SModule) -> Seq<char> {
    print_stmts_s(m.body)
}

// ------------------------------------------------------------------
// Executable rendering into an owned, non-shared output buffer.
// ------------------------------------------------------------------

fn digit_str(d: u64) -> (r: &'static str)
    requires
        d < 10,
    ensures
        r@ == seq![dec_digit(d)],
{
    proof {
        reveal_strlit("0");
        reveal_strlit("1");
        reveal_strlit("2");
        reveal_strlit("3");
        reveal_strlit("4");
        reveal_strlit("5");
        reveal_strlit("6");
        reveal_strlit("7");
        reveal_strlit("8");
        reveal_strlit("9");
    }
    let r = if d == 0 {
        "0"
    } else if d == 1 {
        "1"
    } else if d == 2 {
        "2"
    } else if d == 3 {
        "3"
    } else if d == 4 {
        "4"
    } else if d == 5 {
        "5"
    } else if d == 6 {
        "6"
    } else if d == 7 {
        "7"
    } else if d == 8 {
        "8"
    } else {
        "9"
    };
    proof {
        assert(r@ =~= seq![dec_digit(d)]);
    }
    r
}

fn render_u64(n: u64, out: &mut String)
    ensures
        final(out)@ == old(out)@ + dec_str(n),
    decreases n,
{
    if n < 10 {
        out.append(digit_str(n));
        proof {
            assert(final(out)@ =~= old(out)@ + dec_str(n));
        }
    } else {
        render_u64(n / 10, out);
        out.append(digit_str(n % 10));
        proof {
            assert(final(out)@ =~= old(out)@ + dec_str(n));
        }
    }
}

/// Appends the decimal rendering of a scope-context tag.
pub fn render_ctxt(ctxt: u32, out: &mut String)
    ensures
        final(out)@ == old(out)@ + dec_str(ctxt as u64),
{
    render_u64(ctxt as u64, out);
}

fn render_expr(e: &Expr, out: &mut String)
    ensures
        final(out)@ == old(out)@ + print_expr_s(e@),
    decreases *e,
{
    match e {
        Expr::Ident(i) => {
            out.append(i.sym.as_str());
        },
        Expr::Num { value, span } => {
            render_u64(*value, out);
        },
        Expr::Assign { target, value, span } => {
            render_poe(&**target, out);
            out.append(" = ");
            render_expr(&**value, out);
            proof {
                assert(final(out)@ =~= old(out)@ + print_expr_s(e@));
            }
        },
    }
}

fn render_pat(p: &Pat, out: &mut String)
    ensures
        final(out)@ == old(out)@ + print_pat_s(p@),
    decreases *p,
{
    match p {
        Pat::Id(i) => {
            out.append(i.sym.as_str());
        },
        Pat::Expr(e) => {
            render_expr(&**e, out);
        },
    }
}

fn render_poe(p: &PatOrExpr, out: &mut String)
    ensures
        final(out)@ == old(out)@ + print_poe_s(p@),
    decreases *p,
{
    match p {
        PatOrExpr::Pat(pat) => {
            render_pat(&**pat, out);
        },
        PatOrExpr::Expr(e) => {
            render_expr(&**e, out);
        },
    }
}

fn render_declarator(d: &VarDeclarator, out: &mut String)
    ensures
        final(out)@ == old(out)@ + print_declarator_s(crate::ast::view_declarator(*d)),
{
    render_pat(&d.name, out);
    match &d.init {
        Some(e) => {
            out.append(" = ");
            render_expr(e, out);
        },
        None => {},
    }
    proof {
        assert(final(out)@ =~= old(out)@ + print_declarator_s(crate::ast::view_declarator(*d)));
    }
}

fn render_decls_rest(decls: &Vec<VarDeclarator>, i: usize, out: &mut String)
    requires
        1 <= i <= decls.len(),
    ensures
        final(out)@ == old(out)@ + print_decls_rest_s(
            decls@.map_values(|x: VarDeclarator| crate::ast::view_declarator(x)).skip(i as int),
        ),
    decreases decls.len() - i,
{
    let ghost ds = decls@.map_values(|x: VarDeclarator| crate::ast::view_declarator(x));
    if i == decls.len() {
        proof {
            assert(ds.skip(i as int) =~= Seq::<SVarDeclarator>::empty());
            assert(final(out)@ =~= old(out)@ + print_decls_rest_s(ds.skip(i as int)));
        }
    } else {
        out.append(", ");
        render_declarator(&decls[i], out);
        render_decls_rest(decls, i + 1, out);
        proof {
            assert(ds.skip(i as int).drop_first() =~= ds.skip(i as int + 1));
            assert(ds.skip(i as int)[0] == ds[i as int]);
            assert(final(out)@ =~= old(out)@ + print_decls_rest_s(ds.skip(i as int)));
        }
    }
}

fn render_vardecl(d: &VarDecl, out: &mut String)
    ensures
        final(out)@ == old(out)@ + print_vardecl_s(crate::ast::view_vardecl(*d)),
{
    match d.kind {
        VarKind::Var => out.append("var"),
        VarKind::Let => out.append("let"),
        VarKind::Const => out.append("const"),
    }
    out.append(" ");
    let ghost ds = decls_view(d);
    if d.decls.len() > 0 {
        render_declarator(&d.decls[0], out);
        render_decls_rest(&d.decls, 1, out);
        proof {
            assert(ds.skip(1) =~= ds.drop_first());
            assert(final(out)@ =~= old(out)@ + print_vardecl_s(crate::ast::view_vardecl(*d)));
        }
    } else {
        proof {
            assert(final(out)@ =~= old(out)@ + print_vardecl_s(crate::ast::view_vardecl(*d)));
        }
    }
}

pub open spec fn decls_view(d: &VarDecl) -> Seq<SVarDeclarator> {
    d.decls@.map_values(|x: VarDeclarator| crate::ast::view_declarator(x))
}

fn render_stmt(s: &Stmt, out: &mut String)
    ensures
        final(out)@ == old(out)@ + print_stmt_s(s@),
{
    match s {
        Stmt::Expr { expr, span } => {
            render_expr(expr, out);
            out.append(";\n");
            proof {
                assert(final(out)@ =~= old(out)@ + print_stmt_s(s@));
            }
        },
        Stmt::Decl(d) => {
            render_vardecl(d, out);
            out.append(";\n");
            proof {
                assert(final(out)@ =~= old(out)@ + print_stmt_s(s@));
            }
        },
    }
}

fn render_stmts(body: &Vec<Stmt>, i: usize, out: &mut String)
    requires
        i <= body.len(),
    ensures
        final(out)@ == old(out)@ + print_stmts_s(view_stmts(body@).skip(i as int)),
    decreases body.len() - i,
{
    let ghost ss = view_stmts(body@);
    if i == body.len() {
        proof {
            assert(ss.skip(i as int) =~= Seq::<SStmt>::empty());
            assert(final(out)@ =~= old(out)@ + print_stmts_s(ss.skip(i as int)));
        }
    } else {
        render_stmt(&body[i], out);
        render_stmts(body, i + 1, out);
        proof {
            assert(ss.skip(i as int).drop_first() =~= ss.skip(i as int + 1));
            assert(ss.skip(i as int)[0] == ss[i as int]);
            assert(final(out)@ =~= old(out)@ + print_stmts_s(ss.skip(i as int)));
        }
    }
}

/// Renders a tree to source text. The result is a function of the tree alone.
pub fn print_module(m: &Module) -> (r: String)
    ensures
        r@ == print_module_s(m@),
{
    let mut out = String::new();
    render_stmts(&m.body, 0, &mut out);
    proof {
        assert(view_stmts(m.body@).skip(0) =~= view_stmts(m.body@));
        assert(out@ =~= print_module_s(m@));
    }
    out
}

// ------------------------------------------------------------------
// Print-invariance of canonicalization: collapsing an expression-wrapped
// destructuring target never changes what is printed.
// ------------------------------------------------------------------

pub proof fn lemma_print_normalize_expr(e: SExpr)
    ensures
        print_expr_s(normalize_expr_s(e)) == print_expr_s(e),
    decreases e,
{
    match e {
        SExpr::Assign { target, value, span } => {
            lemma_print_normalize_poe(*target);
            lemma_print_normalize_expr(*value);
        },
        _ => {},
    }
}

pub proof fn lemma_print_normalize_pat(p: SPat)
    ensures
        print_pat_s(normalize_pat_s(p)) == print_pat_s(p),
    decreases p,
{
    match p {
        SPat::Expr(e) => {
            lemma_print_normalize_expr(*e);
        },
        _ => {},
    }
}

pub proof fn lemma_print_normalize_poe(p: SPatOrExpr)
    ensures
        print_poe_s(normalize_poe_s(p)) == print_poe_s(p),
{
}

pub proof fn lemma_print_normalize_declarator(d: SVarDeclarator)
    ensures
        print_declarator_s(normalize_declarator_s(d)) == print_declarator_s(d),
{
    lemma_print_normalize_pat(d.name);
    match d.init {
        Some(e) => lemma_print_normalize_expr(e),
        None => {},
    }
}

pub proof fn lemma_print_normalize_decls_rest(ds: Seq<SVarDeclarator>)
    ensures
        print_decls_rest_s(ds.map_values(|x: SVarDeclarator| normalize_declarator_s(x)))
            == print_decls_rest_s(ds),
    decreases ds.len(),
{
    let mapped = ds.map_values(|x: SVarDeclarator| normalize_declarator_s(x));
    if ds.len() == 0 {
    } else {
        lemma_print_normalize_declarator(ds[0]);
        lemma_print_normalize_decls_rest(ds.drop_first());
        assert(mapped.drop_first() =~= ds.drop_first().map_values(
            |x: SVarDeclarator| normalize_declarator_s(x),
        ));
    }
}

pub proof fn lemma_print_normalize_vardecl(d: SVarDecl)
    ensures
        print_vardecl_s(normalize_vardecl_s(d)) == print_vardecl_s(d),
{
    let mapped = d.decls.map_values(|x: SVarDeclarator| normalize_declarator_s(x));
    if d.decls.len() == 0 {
    } else {
        lemma_print_normalize_declarator(d.decls[0]);
        lemma_print_normalize_decls_rest(d.decls.drop_first());
        assert(mapped.drop_first() =~= d.decls.drop_first().map_values(
            |x: SVarDeclarator| normalize_declarator_s(x),
        ));
    }
}

pub proof fn lemma_print_normalize_stmt(s: SStmt)
    ensures
        print_stmt_s(normalize_stmt_s(s)) == print_stmt_s(s),
{
    match s {
        SStmt::Expr { expr, span } => lemma_print_normalize_expr(expr),
        SStmt::Decl(d) => lemma_print_normalize_vardecl(d),
    }
}

pub proof fn lemma_print_normalize_stmts(ss: Seq<SStmt>)
    ensures
        print_stmts_s(ss.map_values(|s: SStmt| normalize_stmt_s(s))) == print_stmts_s(ss),
    decreases ss.len(),
{
    let mapped = ss.map_values(|s: SStmt| normalize_stmt_s(s));
    if ss.len() == 0 {
    } else {
        lemma_print_normalize_stmt(ss[0]);
        lemma_print_normalize_stmts(ss.drop_first());
        assert(mapped.drop_first() =~= ss.drop_first().map_values(|s: SStmt| normalize_stmt_s(s)));
    }
}

/// A tree and its canonicalized form print to the same text.
pub proof fn lemma_print_normalize_module(m: SModule)
    ensures
        print_module_s(normalize_module_s(m)) == print_module_s(m),
{
    lemma_print_normalize_stmts(m.body);
}

} // verus!

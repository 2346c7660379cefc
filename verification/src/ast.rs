//! The tree model: a hierarchical representation of a parsed program,
//! carrying position metadata (spans) and scope-context tags on identifiers.
//! Both are disposable for comparison purposes: spans are stripped before any
//! equality check, and context tags are consumed by hygiene resolution.
use vstd::prelude::*;

verus! {

/// An enumerated description of the accepted grammar; passed through
/// unchanged, never interpreted by the harness itself.
#[derive(Clone, Copy, PartialEq, Eq, Structural, Debug)]
pub enum Dialect {
    Es,
    Ts,
}

/// Position metadata: a byte range in the registered source text.
#[derive(Clone, Copy, PartialEq, Eq, Structural, Debug)]
pub struct Span {
    pub lo: u32,
    pub hi: u32,
}

/// The span that stripping assigns to every node.
pub open spec fn dummy_span() -> Span {
    Span { lo: 0, hi: 0 }
}

#[derive(Clone, Copy, PartialEq, Eq, Structural, Debug)]
pub enum VarKind {
    Var,
    Let,
    Const,
}

/// An identifier: printable symbol, position, and the scope-context tag that
/// disambiguates same-named bindings from different lexical scopes.
#[derive(Debug)]
pub struct Ident {
    pub sym: String,
    pub span: Span,
    pub ctxt: u32,
}

#[derive(Debug)]
pub enum Expr {
    Ident(Ident),
    Num { value: u64, span: Span },
    Assign { target: Box<PatOrExpr>, value: Box<Expr>, span: Span },
}

#[derive(Debug)]
pub enum Pat {
    Id(Ident),
    Expr(Box<Expr>),
}

/// A destructuring target: either a proper pattern or a plain expression.
/// A parser may emit the expression form wrapped as a pattern; the
/// canonicalization pass collapses that wrapper.
#[derive(Debug)]
pub enum PatOrExpr {
    Pat(Box<Pat>),
    Expr(Box<Expr>),
}

#[derive(Debug)]
pub struct VarDeclarator {
    pub name: Pat,
    pub init: Option<Expr>,
    pub span: Span,
}

#[derive(Debug)]
pub struct VarDecl {
    pub kind: VarKind,
    pub decls: Vec<VarDeclarator>,
    pub span: Span,
}

#[derive(Debug)]
pub enum Stmt {
    Expr { expr: Expr, span: Span },
    Decl(VarDecl),
}

#[derive(Debug)]
pub struct Module {
    pub body: Vec<Stmt>,
    pub span: Span,
}

// ------------------------------------------------------------------
// The mathematical model of a tree.
// ------------------------------------------------------------------

pub ghost struct SIdent {
    pub sym: Seq<char>,
    pub span: Span,
    pub ctxt: u32,
}

pub ghost enum SExpr {
    Ident(SIdent),
    Num { value: u64, span: Span },
    Assign { target: Box<SPatOrExpr>, value: Box<SExpr>, span: Span },
}

pub ghost enum SPat {
    Id(SIdent),
    Expr(Box<SExpr>),
}

pub ghost enum SPatOrExpr {
    Pat(Box<SPat>),
    Expr(Box<SExpr>),
}

pub ghost struct SVarDeclarator {
    pub name: SPat,
    pub init: Option<SExpr>,
    pub span: Span,
}

pub ghost struct SVarDecl {
    pub kind: VarKind,
    pub decls: Seq<SVarDeclarator>,
    pub span: Span,
}

pub ghost enum SStmt {
    Expr { expr: SExpr, span: Span },
    Decl(SVarDecl),
}

pub ghost struct SModule {
    pub body: Seq<SStmt>,
    pub span: Span,
}

// ------------------------------------------------------------------
// Views: each tree node abstracts to its model.
// ------------------------------------------------------------------

pub open spec fn view_ident(i: Ident) -> SIdent {
    SIdent { sym: i.sym@, span: i.span, ctxt: i.ctxt }
}

pub open spec fn view_expr(e: Expr) -> SExpr
    decreases e,
{
    match e {
        Expr::Ident(i) => SExpr::Ident(view_ident(i)),
        Expr::Num { value, span } => SExpr::Num { value, span },
        Expr::Assign { target, value, span } => SExpr::Assign {
            target: Box::new(view_poe(*target)),
            value: Box::new(view_expr(*value)),
            span,
        },
    }
}

pub open spec fn view_pat(p: Pat) -> SPat
    decreases p,
{
    match p {
        Pat::Id(i) => SPat::Id(view_ident(i)),
        Pat::Expr(e) => SPat::Expr(Box::new(view_expr(*e))),
    }
}

pub open spec fn view_poe(p: PatOrExpr) -> SPatOrExpr
    decreases p,
{
    match p {
        PatOrExpr::Pat(pat) => SPatOrExpr::Pat(Box::new(view_pat(*pat))),
        PatOrExpr::Expr(e) => SPatOrExpr::Expr(Box::new(view_expr(*e))),
    }
}

pub open spec fn view_declarator(d: VarDeclarator) -> SVarDeclarator {
    SVarDeclarator {
        name: view_pat(d.name),
        init: match d.init {
            Some(e) => Some(view_expr(e)),
            None => None,
        },
        span: d.span,
    }
}

pub open spec fn view_vardecl(d: VarDecl) -> SVarDecl {
    SVarDecl {
        kind: d.kind,
        decls: d.decls@.map_values(|x: VarDeclarator| view_declarator(x)),
        span: d.span,
    }
}

pub open spec fn view_stmt(s: Stmt) -> SStmt {
    match s {
        Stmt::Expr { expr, span } => SStmt::Expr { expr: view_expr(expr), span },
        Stmt::Decl(d) => SStmt::Decl(view_vardecl(d)),
    }
}

pub open spec fn view_stmts(ss: Seq<Stmt>) -> Seq<SStmt> {
    ss.map_values(|s: Stmt| view_stmt(s))
}

pub open spec fn view_module(m: Module) -> SModule {
    SModule { body: view_stmts(m.body@), span: m.span }
}

impl View for Ident {
    type V = SIdent;

    open spec fn view(&self) -> SIdent {
        view_ident(*self)
    }
}

impl View for Expr {
    type V = SExpr;

    open spec fn view(&self) -> SExpr {
        view_expr(*self)
    }
}

impl View for Pat {
    type V = SPat;

    open spec fn view(&self) -> SPat {
        view_pat(*self)
    }
}

impl View for PatOrExpr {
    type V = SPatOrExpr;

    open spec fn view(&self) -> SPatOrExpr {
        view_poe(*self)
    }
}

impl View for Stmt {
    type V = SStmt;

    open spec fn view(&self) -> SStmt {
        view_stmt(*self)
    }
}

impl View for Module {
    type V = SModule;

    open spec fn view(&self) -> SModule {
        view_module(*self)
    }
}

// ------------------------------------------------------------------
// Deep copies: passes that leave a subtree untouched still hand back an
// owned tree, so they copy what they do not rewrite.
// ------------------------------------------------------------------

pub fn copy_ident(i: &Ident) -> (r: Ident)
    ensures
        r@ == i@,
{
    Ident { sym: i.sym.clone(), span: i.span, ctxt: i.ctxt }
}

pub fn copy_expr(e: &Expr) -> (r: Expr)
    ensures
        r@ == e@,
    decreases *e,
{
    match e {
        Expr::Ident(i) => Expr::Ident(copy_ident(i)),
        Expr::Num { value, span } => Expr::Num { value: *value, span: *span },
        Expr::Assign { target, value, span } => Expr::Assign {
            target: Box::new(copy_poe(&**target)),
            value: Box::new(copy_expr(&**value)),
            span: *span,
        },
    }
}

pub fn copy_pat(p: &Pat) -> (r: Pat)
    ensures
        r@ == p@,
    decreases *p,
{
    match p {
        Pat::Id(i) => Pat::Id(copy_ident(i)),
        Pat::Expr(e) => Pat::Expr(Box::new(copy_expr(&**e))),
    }
}

pub fn copy_poe(p: &PatOrExpr) -> (r: PatOrExpr)
    ensures
        r@ == p@,
    decreases *p,
{
    match p {
        PatOrExpr::Pat(pat) => PatOrExpr::Pat(Box::new(copy_pat(&**pat))),
        PatOrExpr::Expr(e) => PatOrExpr::Expr(Box::new(copy_expr(&**e))),
    }
}

// ------------------------------------------------------------------
// Structural equality, decided at the model level.
// ------------------------------------------------------------------

pub fn eq_ident(a: &Ident, b: &Ident) -> (r: bool)
    ensures
        r == (a@ == b@),
{
    a.sym == b.sym && a.span.lo == b.span.lo && a.span.hi == b.span.hi && a.ctxt == b.ctxt
}

pub fn eq_expr(a: &Expr, b: &Expr) -> (r: bool)
    ensures
        r == (a@ == b@),
    decreases *a,
{
    match (a, b) {
        (Expr::Ident(x), Expr::Ident(y)) => eq_ident(x, y),
        (Expr::Num { value: v1, span: s1 }, Expr::Num { value: v2, span: s2 }) => {
            v1 == v2 && s1.lo == s2.lo && s1.hi == s2.hi
        },
        (
            Expr::Assign { target: t1, value: v1, span: s1 },
            Expr::Assign { target: t2, value: v2, span: s2 },
        ) => {
            eq_poe(&**t1, &**t2) && eq_expr(&**v1, &**v2) && s1.lo == s2.lo && s1.hi == s2.hi
        },
        _ => false,
    }
}

pub fn eq_pat(a: &Pat, b: &Pat) -> (r: bool)
    ensures
        r == (a@ == b@),
    decreases *a,
{
    match (a, b) {
        (Pat::Id(x), Pat::Id(y)) => eq_ident(x, y),
        (Pat::Expr(x), Pat::Expr(y)) => eq_expr(&**x, &**y),
        _ => false,
    }
}

pub fn eq_poe(a: &PatOrExpr, b: &PatOrExpr) -> (r: bool)
    ensures
        r == (a@ == b@),
    decreases *a,
{
    match (a, b) {
        (PatOrExpr::Pat(x), PatOrExpr::Pat(y)) => eq_pat(&**x, &**y),
        (PatOrExpr::Expr(x), PatOrExpr::Expr(y)) => eq_expr(&**x, &**y),
        _ => false,
    }
}

pub fn eq_declarator(a: &VarDeclarator, b: &VarDeclarator) -> (r: bool)
    ensures
        r == (view_declarator(*a) == view_declarator(*b)),
{
    let name_eq = eq_pat(&a.name, &b.name);
    let init_eq = match (&a.init, &b.init) {
        (Some(x), Some(y)) => eq_expr(x, y),
        (None, None) => true,
        _ => false,
    };
    name_eq && init_eq && a.span.lo == b.span.lo && a.span.hi == b.span.hi
}

pub fn eq_declarators(a: &Vec<VarDeclarator>, b: &Vec<VarDeclarator>) -> (r: bool)
    ensures
        r == (a@.map_values(|x: VarDeclarator| view_declarator(x)) == b@.map_values(
            |x: VarDeclarator| view_declarator(x),
        )),
{
    let ghost va = a@.map_values(|x: VarDeclarator| view_declarator(x));
    let ghost vb = b@.map_values(|x: VarDeclarator| view_declarator(x));
    if a.len() != b.len() {
        assert(va.len() != vb.len());
        return false;
    }
    let mut i: usize = 0;
    while i < a.len()
        invariant
            i <= a.len(),
            a.len() == b.len(),
            va == a@.map_values(|x: VarDeclarator| view_declarator(x)),
            vb == b@.map_values(|x: VarDeclarator| view_declarator(x)),
            forall|j: int| 0 <= j < i ==> va[j] == vb[j],
        decreases a.len() - i,
    {
        if !eq_declarator(&a[i], &b[i]) {
            assert(va[i as int] != vb[i as int]);
            return false;
        }
        i += 1;
    }
    proof {
        assert(va =~= vb);
    }
    true
}

pub fn eq_vardecl(a: &VarDecl, b: &VarDecl) -> (r: bool)
    ensures
        r == (view_vardecl(*a) == view_vardecl(*b)),
{
    let kind_eq = match (a.kind, b.kind) {
        (VarKind::Var, VarKind::Var) => true,
        (VarKind::Let, VarKind::Let) => true,
        (VarKind::Const, VarKind::Const) => true,
        _ => false,
    };
    kind_eq && eq_declarators(&a.decls, &b.decls) && a.span.lo == b.span.lo && a.span.hi
        == b.span.hi
}

pub fn eq_stmt(a: &Stmt, b: &Stmt) -> (r: bool)
    ensures
        r == (a@ == b@),
{
    match (a, b) {
        (Stmt::Expr { expr: e1, span: s1 }, Stmt::Expr { expr: e2, span: s2 }) => {
            eq_expr(e1, e2) && s1.lo == s2.lo && s1.hi == s2.hi
        },
        (Stmt::Decl(d1), Stmt::Decl(d2)) => eq_vardecl(d1, d2),
        _ => false,
    }
}

/// Structural tree equality: the comparison that decides the first tier of
/// the equivalence check.
pub fn eq_module(a: &Module, b: &Module) -> (r: bool)
    ensures
        r == (a@ == b@),
{
    let ghost va = view_stmts(a.body@);
    let ghost vb = view_stmts(b.body@);
    if a.body.len() != b.body.len() {
        assert(va.len() != vb.len());
        return false;
    }
    if !(a.span.lo == b.span.lo && a.span.hi == b.span.hi) {
        return false;
    }
    let mut i: usize = 0;
    while i < a.body.len()
        invariant
            i <= a.body.len(),
            a.body.len() == b.body.len(),
            a.span == b.span,
            va == view_stmts(a.body@),
            vb == view_stmts(b.body@),
            forall|j: int| 0 <= j < i ==> va[j] == vb[j],
        decreases a.body.len() - i,
    {
        if !eq_stmt(&a.body[i], &b.body[i]) {
            assert(va[i as int] != vb[i as int]);
            return false;
        }
        i += 1;
    }
    proof {
        assert(va =~= vb);
    }
    true
}

} // verus!

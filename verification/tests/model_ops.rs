use transform_equiv::ast::eq_module;
use transform_equiv::ast::Expr;
use transform_equiv::ast::Ident;
use transform_equiv::ast::Module;
use transform_equiv::ast::Pat;
use transform_equiv::ast::PatOrExpr;
use transform_equiv::ast::Span;
use transform_equiv::ast::Stmt;
use transform_equiv::ast::VarDecl;
use transform_equiv::ast::VarDeclarator;
use transform_equiv::ast::VarKind;
use transform_equiv::hygiene_viz::hygiene_visualize;
use transform_equiv::normalize::normalize_module;
use transform_equiv::print::print_module;
use transform_equiv::strip::strip_module;
use transform_equiv::validate::validate;

fn sp(lo: u32, hi: u32) -> Span {
    Span { lo, hi }
}

fn ident(sym: &str, lo: u32, ctxt: u32) -> Ident {
    Ident { sym: sym.to_string(), span: sp(lo, lo + sym.len() as u32), ctxt }
}

/// `<kind> <name> = <value>;` as a one-statement module.
fn decl_module(kind: VarKind, name: &str, value: u64, lo: u32, ctxt: u32) -> Module {
    Module {
        body: vec![Stmt::Decl(VarDecl {
            kind,
            decls: vec![VarDeclarator {
                name: Pat::Id(ident(name, lo, ctxt)),
                init: Some(Expr::Num { value, span: sp(lo + 8, lo + 9) }),
                span: sp(lo, lo + 9),
            }],
            span: sp(lo, lo + 10),
        })],
        span: sp(lo, lo + 10),
    }
}

/// `x = 1;` with the destructuring target wrapped as a pattern when `wrapped`.
fn assign_module(wrapped: bool) -> Module {
    let target = if wrapped {
        PatOrExpr::Pat(Box::new(Pat::Expr(Box::new(Expr::Ident(ident("x", 0, 0))))))
    } else {
        PatOrExpr::Expr(Box::new(Expr::Ident(ident("x", 0, 0))))
    };
    Module {
        body: vec![Stmt::Expr {
            expr: Expr::Assign {
                target: Box::new(target),
                value: Box::new(Expr::Num { value: 1, span: sp(4, 5) }),
                span: sp(0, 6),
            },
            span: sp(0, 6),
        }],
        span: sp(0, 6),
    }
}

fn num_module(value: u64) -> Module {
    Module {
        body: vec![Stmt::Expr { expr: Expr::Num { value, span: sp(0, 1) }, span: sp(0, 2) }],
        span: sp(0, 2),
    }
}

#[test]
fn strip_replaces_spans_and_keeps_ctxt() {
    let m = decl_module(VarKind::Let, "x", 1, 40, 7);
    let s = strip_module(&m, true);
    assert_eq!(s.span, sp(0, 0));
    match &s.body[0] {
        Stmt::Decl(d) => {
            assert_eq!(d.span, sp(0, 0));
            match &d.decls[0].name {
                Pat::Id(i) => {
                    assert_eq!(i.span, sp(0, 0));
                    assert_eq!(i.ctxt, 7);
                }
                _ => panic!("expected an identifier pattern"),
            }
        }
        _ => panic!("expected a declaration"),
    }
}

#[test]
fn strip_discards_ctxt_when_not_preserved() {
    let m = decl_module(VarKind::Let, "x", 1, 40, 7);
    let s = strip_module(&m, false);
    match &s.body[0] {
        Stmt::Decl(d) => match &d.decls[0].name {
            Pat::Id(i) => assert_eq!(i.ctxt, 0),
            _ => panic!("expected an identifier pattern"),
        },
        _ => panic!("expected a declaration"),
    }
}

#[test]
fn strip_twice_equals_strip_once() {
    let m = assign_module(true);
    let once = strip_module(&m, true);
    let twice = strip_module(&once, true);
    assert!(eq_module(&once, &twice));
    let once_full = strip_module(&m, false);
    let twice_full = strip_module(&once_full, false);
    assert!(eq_module(&once_full, &twice_full));
}

#[test]
fn normalize_collapses_wrapped_target() {
    let wrapped = normalize_module(&assign_module(true));
    let plain = normalize_module(&assign_module(false));
    assert!(eq_module(&wrapped, &plain));
    match &wrapped.body[0] {
        Stmt::Expr { expr: Expr::Assign { target, .. }, .. } => {
            assert!(matches!(&**target, PatOrExpr::Expr(_)));
        }
        _ => panic!("expected an assignment statement"),
    }
}

#[test]
fn normalize_twice_equals_once() {
    let m = assign_module(true);
    let once = normalize_module(&m);
    let twice = normalize_module(&once);
    assert!(eq_module(&once, &twice));
}

#[test]
fn print_let_statement() {
    let m = decl_module(VarKind::Let, "x", 1, 40, 0);
    assert_eq!(print_module(&m), "let x = 1;\n");
}

#[test]
fn print_var_kinds() {
    assert_eq!(print_module(&decl_module(VarKind::Var, "a", 2, 0, 0)), "var a = 2;\n");
    assert_eq!(print_module(&decl_module(VarKind::Const, "c", 3, 0, 0)), "const c = 3;\n");
}

#[test]
fn print_multiple_declarators() {
    let m = Module {
        body: vec![Stmt::Decl(VarDecl {
            kind: VarKind::Var,
            decls: vec![
                VarDeclarator {
                    name: Pat::Id(ident("a", 4, 0)),
                    init: Some(Expr::Num { value: 1, span: sp(8, 9) }),
                    span: sp(4, 9),
                },
                VarDeclarator { name: Pat::Id(ident("b", 11, 0)), init: None, span: sp(11, 12) },
            ],
            span: sp(0, 13),
        })],
        span: sp(0, 13),
    };
    assert_eq!(print_module(&m), "var a = 1, b;\n");
}

#[test]
fn print_assignment() {
    assert_eq!(print_module(&assign_module(false)), "x = 1;\n");
}

#[test]
fn print_wrapped_and_plain_target_agree() {
    assert_eq!(print_module(&assign_module(true)), print_module(&assign_module(false)));
}

#[test]
fn print_numbers() {
    assert_eq!(print_module(&num_module(0)), "0;\n");
    assert_eq!(print_module(&num_module(7)), "7;\n");
    assert_eq!(print_module(&num_module(10)), "10;\n");
    assert_eq!(print_module(&num_module(12345)), "12345;\n");
    assert_eq!(print_module(&num_module(u64::MAX)), "18446744073709551615;\n");
}

#[test]
fn eq_module_accepts_equal_trees() {
    assert!(eq_module(&assign_module(true), &assign_module(true)));
}

#[test]
fn eq_module_detects_difference() {
    assert!(!eq_module(&assign_module(true), &assign_module(false)));
    assert!(!eq_module(
        &decl_module(VarKind::Let, "x", 1, 40, 0),
        &decl_module(VarKind::Let, "x", 2, 40, 0),
    ));
    assert!(!eq_module(
        &decl_module(VarKind::Let, "x", 1, 40, 0),
        &decl_module(VarKind::Let, "x", 1, 40, 3),
    ));
}

#[test]
fn validate_accepts_well_formed_tree() {
    assert!(validate(&decl_module(VarKind::Let, "x", 1, 40, 0)));
}

#[test]
fn validate_rejects_inverted_span() {
    let mut m = decl_module(VarKind::Let, "x", 1, 40, 0);
    m.span = Span { lo: 9, hi: 3 };
    assert!(!validate(&m));
}

#[test]
fn hygiene_visualizer_suffixes_ctxt() {
    let m = decl_module(VarKind::Let, "x", 1, 40, 2);
    let annotated = hygiene_visualize(&m);
    assert_eq!(print_module(&annotated), "let x#2 = 1;\n");
}

#[test]
fn normalize_leaves_collapsed_subtree_untouched() {
    // The outer destructuring target is an expression-wrapped assignment
    // whose own target is wrapped as well. Only the outer node the
    // traversal reaches collapses; the inner wrapper is handed back as is.
    let inner = Expr::Assign {
        target: Box::new(PatOrExpr::Pat(Box::new(Pat::Expr(Box::new(Expr::Ident(ident(
            "y", 0, 0,
        ))))))),
        value: Box::new(Expr::Num { value: 2, span: sp(8, 9) }),
        span: sp(0, 9),
    };
    let m = Module {
        body: vec![Stmt::Expr {
            expr: Expr::Assign {
                target: Box::new(PatOrExpr::Pat(Box::new(Pat::Expr(Box::new(inner))))),
                value: Box::new(Expr::Num { value: 1, span: sp(12, 13) }),
                span: sp(0, 14),
            },
            span: sp(0, 14),
        }],
        span: sp(0, 14),
    };
    let n = normalize_module(&m);
    match &n.body[0] {
        Stmt::Expr { expr: Expr::Assign { target, .. }, .. } => match &**target {
            PatOrExpr::Expr(e) => match &**e {
                Expr::Assign { target: inner_target, .. } => {
                    assert!(matches!(&**inner_target, PatOrExpr::Pat(p) if matches!(&**p, Pat::Expr(_))));
                }
                _ => panic!("expected the inner assignment"),
            },
            _ => panic!("expected the outer wrapper to collapse"),
        },
        _ => panic!("expected an assignment statement"),
    }
}

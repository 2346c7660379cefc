use transform_equiv::ast::Dialect;
use transform_equiv::ast::Expr;
use transform_equiv::ast::Ident;
use transform_equiv::ast::Module;
use transform_equiv::ast::Pat;
use transform_equiv::ast::PatOrExpr;
use transform_equiv::ast::Span;
use transform_equiv::ast::Stmt;
use transform_equiv::ast::VarDecl;
use transform_equiv::ast::VarDeclarator;
use transform_equiv::ast::VarKind;
use transform_equiv::checker::decide_equivalence;
use transform_equiv::checker::test_transform;
use transform_equiv::checker::MismatchKind;
use transform_equiv::checker::PassKind;
use transform_equiv::checker::Verdict;
use transform_equiv::pipeline::Diagnostic;
use transform_equiv::pipeline::Failure;
use transform_equiv::pipeline::Frontend;
use transform_equiv::pipeline::IdentityPass;
use transform_equiv::pipeline::ParseOutcome;
use transform_equiv::pipeline::Pass;
use transform_equiv::pipeline::Tester;

fn sp(lo: u32, hi: u32) -> Span {
    Span { lo, hi }
}

fn ident(sym: &str, lo: u32, ctxt: u32) -> Ident {
    Ident { sym: sym.to_string(), span: sp(lo, lo + sym.len() as u32), ctxt }
}

fn let_stmt(name: &str, value: u64, lo: u32, ctxt: u32) -> Stmt {
    Stmt::Decl(VarDecl {
        kind: VarKind::Let,
        decls: vec![VarDeclarator {
            name: Pat::Id(ident(name, lo + 4, ctxt)),
            init: Some(Expr::Num { value, span: sp(lo + 8, lo + 9) }),
            span: sp(lo + 4, lo + 9),
        }],
        span: sp(lo, lo + 10),
    })
}

/// `x = <value>;` with the destructuring target in the expression-wrapped
/// pattern form a parser emits.
fn wrapped_assign_stmt(name: &str, value: u64, lo: u32) -> Stmt {
    Stmt::Expr {
        expr: Expr::Assign {
            target: Box::new(PatOrExpr::Pat(Box::new(Pat::Expr(Box::new(Expr::Ident(ident(
                name,
                lo,
                0,
            ))))))),
            value: Box::new(Expr::Num { value, span: sp(lo + 4, lo + 5) }),
            span: sp(lo, lo + 6),
        },
        span: sp(lo, lo + 6),
    }
}

/// A parser stand-in for a handful of known sources. Spans differ between
/// parses of the two sides, so only stripping makes trees comparable.
struct TableFrontend;

fn parse_fixture(src: &str, base: u32) -> Option<Module> {
    let body = match src {
        "let x = 1;" => vec![let_stmt("x", 1, base, 0)],
        "let x = 1;\nlet x = 2;" => vec![let_stmt("x", 1, base, 0), let_stmt("x", 2, base + 11, 0)],
        "x = 1;" => vec![wrapped_assign_stmt("x", 1, base)],
        _ => return None,
    };
    let hi = base + src.len() as u32;
    Some(Module { body, span: sp(base, hi) })
}

impl Frontend for TableFrontend {
    fn parse_module(&mut self, name: &str, _dialect: Dialect, src: &str) -> ParseOutcome<Module> {
        let base = if name == "output.js" { 1000 } else { 0 };
        match parse_fixture(src, base) {
            Some(m) => ParseOutcome { value: Some(m), diagnostics: Vec::new() },
            None => ParseOutcome {
                value: None,
                diagnostics: vec![Diagnostic { message: format!("cannot parse: {}", src) }],
            },
        }
    }

    fn parse_script(&mut self, name: &str, dialect: Dialect, src: &str) -> ParseOutcome<Vec<Stmt>> {
        let ParseOutcome { value, diagnostics } = self.parse_module(name, dialect, src);
        ParseOutcome { value: value.map(|m| m.body), diagnostics }
    }
}

/// Replaces the whole body with two bindings of the same symbol that differ
/// only in their scope-context tags.
struct TwoBindingsTransform;

impl Pass for TwoBindingsTransform {
    fn run_pass(&mut self, m: Module) -> Module {
        Module {
            body: vec![let_stmt("x", 1, 0, 1), let_stmt("x", 2, 11, 2)],
            span: m.span,
        }
    }
}

/// Replaces the body with `x = 1;` in the plain (unwrapped) target form.
struct PlainAssignTransform;

impl Pass for PlainAssignTransform {
    fn run_pass(&mut self, m: Module) -> Module {
        Module {
            body: vec![Stmt::Expr {
                expr: Expr::Assign {
                    target: Box::new(PatOrExpr::Expr(Box::new(Expr::Ident(ident("x", 0, 0))))),
                    value: Box::new(Expr::Num { value: 1, span: sp(4, 5) }),
                    span: sp(0, 6),
                },
                span: sp(0, 6),
            }],
            span: m.span,
        }
    }
}

/// Hygiene resolution stand-in: assigns every identifier its plain symbol as
/// the final printable name by clearing the scope-context tags.
struct CollapseHygiene;

impl Pass for CollapseHygiene {
    fn run_pass(&mut self, m: Module) -> Module {
        transform_equiv::strip::strip_module(&m, false)
    }
}

fn run_test_transform<T: Pass>(
    tr: &mut T,
    input: &str,
    expected: &str,
    allow_text_only: bool,
) -> Result<Verdict, Failure> {
    let mut tester = Tester::new(TableFrontend);
    let mut hygiene = CollapseHygiene;
    let mut fixer = IdentityPass;
    let report = test_transform(
        &mut tester,
        tr,
        &mut hygiene,
        &mut fixer,
        Dialect::Es,
        input,
        expected,
        allow_text_only,
        false,
    )?;
    Ok(report.verdict)
}

#[test]
fn identity_transform_matches_structurally() {
    let mut tr = IdentityPass;
    let verdict = run_test_transform(&mut tr, "let x = 1;", "let x = 1;", false).unwrap();
    assert!(matches!(verdict, Verdict::Pass(PassKind::Structure)));
}

#[test]
fn hygiene_collapses_distinct_bindings_to_shared_name() {
    let mut tr = TwoBindingsTransform;
    let verdict =
        run_test_transform(&mut tr, "let x = 1;", "let x = 1;\nlet x = 2;", false).unwrap();
    assert!(matches!(verdict, Verdict::Pass(PassKind::Structure)));
}

#[test]
fn comparison_before_hygiene_fails_on_context_tags() {
    let mut tester = Tester::new(TableFrontend);
    let mut tr = TwoBindingsTransform;
    let actual = tester.apply_transform(&mut tr, "input.js", Dialect::Es, "let x = 1;").unwrap();
    let mut id = IdentityPass;
    let expected = tester
        .apply_transform(&mut id, "output.js", Dialect::Es, "let x = 1;\nlet x = 2;")
        .unwrap();
    let verdict = decide_equivalence(actual, expected, false);
    assert!(matches!(verdict, Verdict::Fail(_)));
}

#[test]
fn canonicalization_collapses_wrapped_destructuring_target() {
    let mut tr = PlainAssignTransform;
    let verdict = run_test_transform(&mut tr, "let x = 1;", "x = 1;", false).unwrap();
    assert!(matches!(verdict, Verdict::Pass(PassKind::Structure)));
}

#[test]
fn text_only_match_fails_without_opt_in() {
    // Trees that differ structurally but print identically: an unstripped
    // span survives into one side's otherwise-identical tree.
    let a = Module { body: vec![let_stmt("x", 1, 0, 0)], span: sp(0, 10) };
    let b = Module { body: vec![let_stmt("x", 1, 5, 0)], span: sp(5, 15) };
    let verdict = decide_equivalence(a, b, false);
    match verdict {
        Verdict::Fail(rep) => {
            assert!(matches!(rep.kind, MismatchKind::TextEqualStructureDiffers));
            assert_eq!(rep.actual_src, rep.expected_src);
        }
        _ => panic!("expected a failure"),
    }
}

#[test]
fn text_only_match_passes_with_opt_in() {
    let a = Module { body: vec![let_stmt("x", 1, 0, 0)], span: sp(0, 10) };
    let b = Module { body: vec![let_stmt("x", 1, 5, 0)], span: sp(5, 15) };
    let verdict = decide_equivalence(a, b, true);
    assert!(matches!(verdict, Verdict::Pass(PassKind::TextOnly)));
}

#[test]
fn mismatch_reports_line_diff() {
    let a = Module { body: vec![let_stmt("x", 1, 0, 0)], span: sp(0, 10) };
    let b = Module { body: vec![let_stmt("y", 2, 0, 0)], span: sp(0, 10) };
    let verdict = decide_equivalence(a, b, false);
    match verdict {
        Verdict::Fail(rep) => {
            assert_ne!(rep.actual_src, rep.expected_src);
            match rep.kind {
                MismatchKind::TextDiffers { diff } => {
                    assert!(!diff.is_empty());
                    assert_ne!(diff, rep.actual_src);
                    assert_ne!(diff, rep.expected_src);
                }
                _ => panic!("expected a textual mismatch"),
            }
        }
        _ => panic!("expected a failure"),
    }
}

#[test]
fn comparing_a_canonical_tree_to_itself_succeeds() {
    let mut tester = Tester::new(TableFrontend);
    let mut id = IdentityPass;
    let t = tester.apply_transform(&mut id, "input.js", Dialect::Es, "x = 1;").unwrap();
    let t2 = tester.apply_transform(&mut id, "input.js", Dialect::Es, "x = 1;").unwrap();
    let verdict = decide_equivalence(t, t2, false);
    assert!(matches!(verdict, Verdict::Pass(PassKind::Structure)));
}

#[test]
fn parse_failure_emits_diagnostics_and_fails() {
    let mut tester = Tester::new(TableFrontend);
    let mut tr = IdentityPass;
    let r = tester.apply_transform(&mut tr, "input.js", Dialect::Es, "@#$ not a program");
    assert!(matches!(r, Err(Failure::Parse)));
    assert_eq!(tester.diagnostics.len(), 1);
    assert!(tester.diagnostics[0].message.contains("cannot parse"));
}

#[test]
fn parse_stmt_requires_exactly_one_statement() {
    let mut tester = Tester::new(TableFrontend);
    let one = tester.parse_stmt("input.js", Dialect::Es, "let x = 1;");
    assert!(one.is_ok());
    let two = tester.parse_stmt("input.js", Dialect::Es, "let x = 1;\nlet x = 2;");
    assert!(matches!(two, Err(Failure::NotSingleStatement)));
    let bad = tester.parse_stmt("input.js", Dialect::Es, "@#$ not a program");
    assert!(matches!(bad, Err(Failure::Parse)));
}

#[test]
fn hygiene_dump_is_produced_only_on_request() {
    let mut tester = Tester::new(TableFrontend);
    let mut tr = TwoBindingsTransform;
    let mut hygiene = CollapseHygiene;
    let mut fixer = IdentityPass;
    let report = test_transform(
        &mut tester,
        &mut tr,
        &mut hygiene,
        &mut fixer,
        Dialect::Es,
        "let x = 1;",
        "let x = 1;\nlet x = 2;",
        false,
        true,
    )
    .unwrap();
    let rendering = report.hygiene_rendering.unwrap();
    assert_eq!(rendering, "let x#1 = 1;\nlet x#2 = 2;\n");
    assert!(matches!(report.verdict, Verdict::Pass(PassKind::Structure)));
}

/// A fixer stand-in that rewraps every plain assignment target as an
/// expression pattern: invisible in printed text, visible in the tree.
struct WrapTargetFixer;

impl Pass for WrapTargetFixer {
    fn run_pass(&mut self, m: Module) -> Module {
        let body = m
            .body
            .into_iter()
            .map(|s| match s {
                Stmt::Expr { expr: Expr::Assign { target, value, span }, span: ss } => {
                    let target = match *target {
                        PatOrExpr::Expr(e) => PatOrExpr::Pat(Box::new(Pat::Expr(e))),
                        other => other,
                    };
                    Stmt::Expr {
                        expr: Expr::Assign { target: Box::new(target), value, span },
                        span: ss,
                    }
                }
                other => other,
            })
            .collect();
        Module { body, span: m.span }
    }
}

fn run_with_wrapping_fixer(allow_text_only: bool) -> Verdict {
    let mut tester = Tester::new(TableFrontend);
    let mut tr = IdentityPass;
    let mut hygiene = CollapseHygiene;
    let mut fixer = WrapTargetFixer;
    test_transform(
        &mut tester,
        &mut tr,
        &mut hygiene,
        &mut fixer,
        Dialect::Es,
        "x = 1;",
        "x = 1;",
        allow_text_only,
        false,
    )
    .unwrap()
    .verdict
}

#[test]
fn equal_code_over_diverging_trees_fails_by_default() {
    let verdict = run_with_wrapping_fixer(false);
    match verdict {
        Verdict::Fail(rep) => {
            assert!(matches!(rep.kind, MismatchKind::TextEqualStructureDiffers));
        }
        _ => panic!("expected a failure without the text-only opt-in"),
    }
}

#[test]
fn equal_code_over_diverging_trees_passes_on_opt_in() {
    let verdict = run_with_wrapping_fixer(true);
    assert!(matches!(verdict, Verdict::Pass(PassKind::TextOnly)));
}

#[test]
fn diagnostic_sink_only_grows_across_parses() {
    let mut tester = Tester::new(TableFrontend);
    let mut tr = IdentityPass;
    let _ = tester.apply_transform(&mut tr, "input.js", Dialect::Es, "@#$ not a program");
    assert_eq!(tester.diagnostics.len(), 1);
    let first = tester.diagnostics[0].message.clone();
    let _ = tester.apply_transform(&mut tr, "input.js", Dialect::Es, "also not a program");
    assert_eq!(tester.diagnostics.len(), 2);
    assert_eq!(tester.diagnostics[0].message, first);
}

/// `(x = 2) = 1;` — the outer destructuring target is an expression-wrapped
/// assignment whose own target is wrapped as a pattern when `inner_wrapped`.
fn nested_assign_module(inner_wrapped: bool) -> Module {
    let inner_target = if inner_wrapped {
        PatOrExpr::Pat(Box::new(Pat::Expr(Box::new(Expr::Ident(ident("x", 1, 0))))))
    } else {
        PatOrExpr::Expr(Box::new(Expr::Ident(ident("x", 1, 0))))
    };
    let inner = Expr::Assign {
        target: Box::new(inner_target),
        value: Box::new(Expr::Num { value: 2, span: sp(5, 6) }),
        span: sp(1, 6),
    };
    Module {
        body: vec![Stmt::Expr {
            expr: Expr::Assign {
                target: Box::new(PatOrExpr::Pat(Box::new(Pat::Expr(Box::new(inner))))),
                value: Box::new(Expr::Num { value: 1, span: sp(10, 11) }),
                span: sp(0, 11),
            },
            span: sp(0, 11),
        }],
        span: sp(0, 11),
    }
}

#[test]
fn nested_wrapper_is_not_masked_by_canonicalization() {
    // A wrapper nested below a destructuring target is a tree difference a
    // transform produced, not a parser artifact at the visited node: the
    // canonical trees must stay apart even though the printed code agrees.
    let actual = transform_equiv::pipeline::canonicalize(&nested_assign_module(true));
    let expected = transform_equiv::pipeline::canonicalize(&nested_assign_module(false));
    let verdict = decide_equivalence(actual, expected, false);
    match verdict {
        Verdict::Fail(rep) => {
            assert!(matches!(rep.kind, MismatchKind::TextEqualStructureDiffers));
            assert_eq!(rep.actual_src, rep.expected_src);
        }
        _ => panic!("expected a structural mismatch"),
    }
}

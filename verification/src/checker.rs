//! The two-tier equivalence check. First tier: structural equality of the
//! canonical trees; on a match, rendered text is never consulted. Second
//! tier: both trees are rendered; equal text passes only when the caller
//! opted in, since matching code over diverging structure can hide latent
//! bugs. Anything else is a mismatch reported with a line-level diff.
use vstd::prelude::*;

use crate::ast::eq_module;
use crate::ast::Dialect;
use crate::ast::Module;
use crate::ast::SModule;
use crate::hygiene_viz::hygiene_visualize;
use crate::pipeline::Failure;
use crate::pipeline::Frontend;
use crate::pipeline::IdentityPass;
use crate::pipeline::Pass;
use crate::pipeline::Tester;
use crate::print::print_module;
use crate::print::print_module_s;
use crate::strip::strip_module;

verus! {

/// How a comparison succeeded: on tree structure, or — by explicit opt-in —
/// on rendered text alone.
#[derive(Clone, Copy, PartialEq, Eq, Structural, Debug)]
pub enum PassKind {
    Structure,
    TextOnly,
}

pub ghost enum SMismatchKind {
    /// The rendered texts agree but the trees diverge, and the caller did
    /// not opt into text-only matching.
    TextEqualStructureDiffers,
    /// Both the trees and the rendered texts differ.
    TextDiffers { diff: Seq<char> },
}

pub ghost struct SMismatchReport {
    pub kind: SMismatchKind,
    pub actual: SModule,
    pub expected: SModule,
    pub actual_src: Seq<char>,
    pub expected_src: Seq<char>,
}

pub ghost enum SVerdict {
    Pass(PassKind),
    Fail(SMismatchReport),
}

pub enum MismatchKind {
    TextEqualStructureDiffers,
    TextDiffers { diff: String },
}

/// A failed comparison: both canonical trees and both rendered texts, kept
/// for diagnostic display.
pub struct MismatchReport {
    pub kind: MismatchKind,
    pub actual: Module,
    pub expected: Module,
    pub actual_src: String,
    pub expected_src: String,
}

pub enum Verdict {
    Pass(PassKind),
    Fail(MismatchReport),
}

pub open spec fn view_mismatch_kind(k: MismatchKind) -> SMismatchKind {
    match k {
        MismatchKind::TextEqualStructureDiffers => SMismatchKind::TextEqualStructureDiffers,
        MismatchKind::TextDiffers { diff } => SMismatchKind::TextDiffers { diff: diff@ },
    }
}

pub open spec fn view_verdict(v: Verdict) -> SVerdict {
    match v {
        Verdict::Pass(k) => SVerdict::Pass(k),
        Verdict::Fail(rep) => SVerdict::Fail(
            SMismatchReport {
                kind: view_mismatch_kind(rep.kind),
                actual: rep.actual@,
                expected: rep.expected@,
                actual_src: rep.actual_src@,
                expected_src: rep.expected_src@,
            },
        ),
    }
}

impl View for Verdict {
    type V = SVerdict;

    open spec fn view(&self) -> SVerdict {
        view_verdict(*self)
    }
}

/// The line-level diff between two texts, as the external diff routine
/// renders it. A function of the two texts alone.
pub uninterp spec fn line_diff_of(left: Seq<char>, right: Seq<char>) -> Seq<char>;

/// Relies on testing::diff: a line-level textual diff of its two arguments,
/// computed from them alone.
#[verifier::external_body]
fn line_diff(left: &String, right: &String) -> (r: String)
    ensures
        r@ == line_diff_of(left@, right@),
{
    testing::diff(left.as_str(), right.as_str())
}

/// The two-tier decision over canonical trees.
pub open spec fn spec_decide(actual: SModule, expected: SModule, allow_text_only: bool) -> SVerdict {
    if actual == expected {
        SVerdict::Pass(PassKind::Structure)
    } else {
        let actual_src = print_module_s(actual);
        let expected_src = print_module_s(expected);
        if actual_src == expected_src {
            if allow_text_only {
                SVerdict::Pass(PassKind::TextOnly)
            } else {
                SVerdict::Fail(
                    SMismatchReport {
                        kind: SMismatchKind::TextEqualStructureDiffers,
                        actual,
                        expected,
                        actual_src,
                        expected_src,
                    },
                )
            }
        } else {
            SVerdict::Fail(
                SMismatchReport {
                    kind: SMismatchKind::TextDiffers {
                        diff: line_diff_of(actual_src, expected_src),
                    },
                    actual,
                    expected,
                    actual_src,
                    expected_src,
                },
            )
        }
    }
}

/// Decides whether the actual canonical tree is an acceptable substitute for
/// the expected one.
pub fn decide_equivalence(actual: Module, expected: Module, allow_text_only: bool) -> (v: Verdict)
    ensures
        v@ == spec_decide(actual@, expected@, allow_text_only),
{
    if eq_module(&actual, &expected) {
        return Verdict::Pass(PassKind::Structure);
    }
    let actual_src = print_module(&actual);
    let expected_src = print_module(&expected);
    if actual_src == expected_src {
        if allow_text_only {
            Verdict::Pass(PassKind::TextOnly)
        } else {
            Verdict::Fail(
                MismatchReport {
                    kind: MismatchKind::TextEqualStructureDiffers,
                    actual,
                    expected,
                    actual_src,
                    expected_src,
                },
            )
        }
    } else {
        let diff = line_diff(&actual_src, &expected_src);
        Verdict::Fail(
            MismatchReport {
                kind: MismatchKind::TextDiffers { diff },
                actual,
                expected,
                actual_src,
                expected_src,
            },
        )
    }
}

/// Reflexivity: comparing a canonical tree to itself always succeeds, on
/// structure, whatever the text-only opt-in says.
pub proof fn lemma_compare_reflexive(t: SModule, allow_text_only: bool)
    ensures
        spec_decide(t, t, allow_text_only) == SVerdict::Pass(PassKind::Structure),
{
}

/// Monotonic fallback: when the canonical trees are equal the checker passes
/// structurally and never consults rendered text — no text reaches the
/// verdict; text is consulted only on a structural mismatch.
pub proof fn lemma_monotonic_fallback(actual: SModule, expected: SModule, allow_text_only: bool)
    ensures
        actual == expected ==> spec_decide(actual, expected, allow_text_only) == SVerdict::Pass(
            PassKind::Structure,
        ),
        spec_decide(actual, expected, allow_text_only) != SVerdict::Pass(PassKind::Structure)
            ==> actual != expected,
{
}

/// Everything a finished comparison run hands back: the verdict, and — when
/// the diagnostic dump was requested — the hygiene-annotated rendering of
/// the actual tree, produced before the comparison.
pub struct TestReport {
    pub verdict: Verdict,
    pub hygiene_rendering: Option<String>,
}

/// Runs one full comparison: the expected text through the pipeline with the
/// identity transform, the input text through the pipeline with the
/// transform under test, then hygiene resolution, the fixer, a full strip
/// (scope-context tags included — hygiene has consumed them), and the
/// two-tier decision. The hygiene dump never affects the verdict.
pub fn test_transform<F: Frontend, T: Pass, H: Pass, X: Pass>(
    tester: &mut Tester<F>,
    tr: &mut T,
    hygiene: &mut H,
    fixer: &mut X,
    dialect: Dialect,
    input: &str,
    expected: &str,
    allow_text_only: bool,
    dump_hygiene: bool,
) -> (r: Result<TestReport, Failure>)
    ensures
        old(tester).diagnostics@.is_prefix_of(final(tester).diagnostics@),
        r matches Ok(rep) ==> ((rep.hygiene_rendering is Some) <==> dump_hygiene),
        r matches Ok(rep) ==> ((rep.verdict matches Verdict::Pass(PassKind::TextOnly))
            ==> allow_text_only),
        r matches Ok(rep) ==> (rep.verdict matches Verdict::Fail(mr) ==> rep.verdict@
            == spec_decide(mr.actual@, mr.expected@, allow_text_only)),
        r matches Err(f) ==> (f == Failure::Parse || f == Failure::Invariant(
            crate::pipeline::Checkpoint::PostParse,
        )),
{
    let mut identity = IdentityPass;
    let expected_tree = match tester.apply_transform(&mut identity, "output.js", dialect, expected) {
        Ok(m) => m,
        Err(f) => {
            return Err(f);
        },
    };
    let actual_tree = match tester.apply_transform(tr, "input.js", dialect, input) {
        Ok(m) => m,
        Err(f) => {
            return Err(f);
        },
    };
    let hygiene_rendering = if dump_hygiene {
        let annotated = hygiene_visualize(&actual_tree);
        Some(print_module(&annotated))
    } else {
        None
    };
    let actual_tree = hygiene.run_pass(actual_tree);
    let actual_tree = fixer.run_pass(actual_tree);
    let actual_tree = strip_module(&actual_tree, false);
    let verdict = decide_equivalence(actual_tree, expected_tree, allow_text_only);
    Ok(TestReport { verdict, hygiene_rendering })
}

} // verus!

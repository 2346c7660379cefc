//! The execution-verification harness. A code fragment is wrapped in a
//! minimal executable test stub, pushed through the pipeline with three
//! fail-fast invariant checkpoints (after the transform, after hygiene
//! resolution, after the fixer), rendered twice (once for diagnostic display
//! before helper injection, once as the staged artifact), and handed to an
//! external runner. The library decides every step; staging and the runner
//! process live outside it, driven by the state machine below.
//!
//! A run's states: Parsed, Transformed, HygieneChecked, FixerChecked,
//! Rendered, Staged, Executed, and the terminals Passed and Failed. A failed
//! run retains its staging subdirectory exactly when the runner itself
//! failed: the artifact is kept on disk for postmortem inspection.
use vstd::prelude::*;

use crate::ast::Dialect;
use crate::hygiene_viz::hygiene_visualize;
use crate::pipeline::Checkpoint;
use crate::pipeline::Failure;
use crate::pipeline::Frontend;
use crate::pipeline::Pass;
use crate::pipeline::Tester;
use crate::print::print_module;
use crate::validate::validate;

verus! {

// ------------------------------------------------------------------
// Environment-driven toggles. The harness cannot read the environment;
// the caller hands it the raw variable values and these decide.
// ------------------------------------------------------------------

/// Execution verification runs unless the enable flag is exactly "0".
pub fn execution_enabled(flag: &Option<String>) -> (r: bool)
    ensures
        r == !(flag matches Some(s) && s@ == "0"@),
{
    match flag {
        Some(s) => {
            let zero = String::from_str("0");
            !(*s == zero)
        },
        None => true,
    }
}

/// The hygiene-annotated rendering is dumped exactly when the diagnostic
/// flag is "1".
pub fn hygiene_dump_enabled(flag: &Option<String>) -> (r: bool)
    ensures
        r == (flag matches Some(s) && s@ == "1"@),
{
    match flag {
        Some(s) => {
            let one = String::from_str("1");
            *s == one
        },
        None => false,
    }
}

// ------------------------------------------------------------------
// The stub and the staging layout.
// ------------------------------------------------------------------

pub open spec fn stub_source_s(input: Seq<char>) -> Seq<char> {
    "it('should work', function () {\n"@ + input + "\n});\n"@
}

/// Wraps a code fragment in a minimal single-case executable test stub.
pub fn wrap_in_stub(input: &str) -> (r: String)
    ensures
        r@ == stub_source_s(input@),
{
    let mut s = String::new();
    s.append("it('should work', function () {\n");
    s.append(input);
    s.append("\n});\n");
    proof {
        assert(s@ =~= stub_source_s(input@));
    }
    s
}

pub open spec fn staging_root_s(base: Seq<char>, test_name: Seq<char>) -> Seq<char> {
    base + "/target/testing/"@ + test_name
}

pub open spec fn artifact_file_s(test_name: Seq<char>) -> Seq<char> {
    test_name + ".test.js"@
}

/// Where one run stages its artifact: a root keyed by the test name, and the
/// artifact's file name inside the freshly created subdirectory.
pub struct StagingPlan {
    pub root: String,
    pub artifact_file: String,
}

pub fn staging_plan(base: &str, test_name: &str) -> (r: StagingPlan)
    ensures
        r.root@ == staging_root_s(base@, test_name@),
        r.artifact_file@ == artifact_file_s(test_name@),
{
    let mut root = String::new();
    root.append(base);
    root.append("/target/testing/");
    root.append(test_name);
    let mut artifact_file = String::new();
    artifact_file.append(test_name);
    artifact_file.append(".test.js");
    proof {
        assert(root@ =~= staging_root_s(base@, test_name@));
        assert(artifact_file@ =~= artifact_file_s(test_name@));
    }
    StagingPlan { root, artifact_file }
}

/// The staging protocol, in order: any prior contents under the root are
/// deleted first (a re-run with the same test name is idempotent), the root
/// is recreated, a freshly named subdirectory is made inside it, and the
/// artifact is written there.
#[derive(Clone, Copy, PartialEq, Eq, Structural, Debug)]
pub enum StagingStep {
    RemoveStaleRoot,
    CreateRoot,
    CreateFreshSubdir,
    WriteArtifact,
}

pub fn staging_steps() -> (r: Vec<StagingStep>)
    ensures
        r@ == seq![
            StagingStep::RemoveStaleRoot,
            StagingStep::CreateRoot,
            StagingStep::CreateFreshSubdir,
            StagingStep::WriteArtifact,
        ],
        r@[0] == StagingStep::RemoveStaleRoot,
{
    let mut v: Vec<StagingStep> = Vec::new();
    v.push(StagingStep::RemoveStaleRoot);
    v.push(StagingStep::CreateRoot);
    v.push(StagingStep::CreateFreshSubdir);
    v.push(StagingStep::WriteArtifact);
    proof {
        assert(v@ =~= seq![
            StagingStep::RemoveStaleRoot,
            StagingStep::CreateRoot,
            StagingStep::CreateFreshSubdir,
            StagingStep::WriteArtifact,
        ]);
    }
    v
}

// ------------------------------------------------------------------
// The state machine of one verification run.
// ------------------------------------------------------------------

#[derive(Clone, Copy, PartialEq, Eq, Structural, Debug)]
pub enum RunState {
    Parsed,
    Transformed,
    HygieneChecked,
    FixerChecked,
    Rendered,
    Staged,
    Executed,
    Passed,
    Failed { retained: bool },
}

#[derive(Clone, Copy, PartialEq, Eq, Structural, Debug)]
pub enum RunEvent {
    /// A checkpoint ran the tree invariant check with this result.
    Checkpoint { ok: bool },
    RenderDone,
    StageDone,
    /// The external runner was invoked on the staged artifact.
    RunnerStarted,
    /// The external runner terminated; `ok` is a zero exit code.
    RunnerExited { ok: bool },
}

/// One step of the run. A broken checkpoint short-circuits to the failure
/// terminal without advancing; a nonzero runner exit fails the run with the
/// staging subdirectory retained; terminal states absorb every event; an
/// event that does not belong to the state leaves the state unchanged.
pub open spec fn spec_advance(s: RunState, e: RunEvent) -> RunState {
    match (s, e) {
        (RunState::Parsed, RunEvent::Checkpoint { ok }) => if ok {
            RunState::Transformed
        } else {
            RunState::Failed { retained: false }
        },
        (RunState::Transformed, RunEvent::Checkpoint { ok }) => if ok {
            RunState::HygieneChecked
        } else {
            RunState::Failed { retained: false }
        },
        (RunState::HygieneChecked, RunEvent::Checkpoint { ok }) => if ok {
            RunState::FixerChecked
        } else {
            RunState::Failed { retained: false }
        },
        (RunState::FixerChecked, RunEvent::RenderDone) => RunState::Rendered,
        (RunState::Rendered, RunEvent::StageDone) => RunState::Staged,
        (RunState::Staged, RunEvent::RunnerStarted) => RunState::Executed,
        (RunState::Executed, RunEvent::RunnerExited { ok }) => if ok {
            RunState::Passed
        } else {
            RunState::Failed { retained: true }
        },
        (RunState::Passed, _) => RunState::Passed,
        (RunState::Failed { retained }, _) => RunState::Failed { retained },
        (other, _) => other,
    }
}

pub fn advance(s: RunState, e: RunEvent) -> (r: RunState)
    ensures
        r == spec_advance(s, e),
{
    match (s, e) {
        (RunState::Parsed, RunEvent::Checkpoint { ok }) => if ok {
            RunState::Transformed
        } else {
            RunState::Failed { retained: false }
        },
        (RunState::Transformed, RunEvent::Checkpoint { ok }) => if ok {
            RunState::HygieneChecked
        } else {
            RunState::Failed { retained: false }
        },
        (RunState::HygieneChecked, RunEvent::Checkpoint { ok }) => if ok {
            RunState::FixerChecked
        } else {
            RunState::Failed { retained: false }
        },
        (RunState::FixerChecked, RunEvent::RenderDone) => RunState::Rendered,
        (RunState::Rendered, RunEvent::StageDone) => RunState::Staged,
        (RunState::Staged, RunEvent::RunnerStarted) => RunState::Executed,
        (RunState::Executed, RunEvent::RunnerExited { ok }) => if ok {
            RunState::Passed
        } else {
            RunState::Failed { retained: true }
        },
        (other, _) => other,
    }
}

pub open spec fn is_terminal(s: RunState) -> bool {
    s == RunState::Passed || s matches RunState::Failed { .. }
}

/// Terminal states absorb every event: a finished run never advances.
pub proof fn lemma_terminal_absorbing(s: RunState, e: RunEvent)
    ensures
        is_terminal(s) ==> spec_advance(s, e) == s,
{
}

/// A nonzero runner exit is terminal and retains the staging subdirectory;
/// a zero exit passes and allows normal cleanup.
pub proof fn lemma_runner_exit_decides(ok: bool)
    ensures
        spec_advance(RunState::Executed, RunEvent::RunnerExited { ok }) == if ok {
            RunState::Passed
        } else {
            RunState::Failed { retained: true }
        },
{
}

/// What happens to the staging subdirectory once the runner has exited:
/// removed on success, deliberately leaked for inspection on failure.
#[derive(Clone, Copy, PartialEq, Eq, Structural, Debug)]
pub enum CleanupAction {
    RemoveSubdir,
    RetainForInspection,
}

pub fn cleanup_decision(runner_ok: bool) -> (r: CleanupAction)
    ensures
        r == if runner_ok {
            CleanupAction::RemoveSubdir
        } else {
            CleanupAction::RetainForInspection
        },
{
    if runner_ok {
        CleanupAction::RemoveSubdir
    } else {
        CleanupAction::RetainForInspection
    }
}

// ------------------------------------------------------------------
// Preparing the artifact: everything up to the Rendered state.
// ------------------------------------------------------------------

/// A run prepared for staging: the diagnostic rendering (before helper
/// injection), the staged artifact text (after it), and where to put it.
pub struct ExecutionArtifact {
    pub display_src: String,
    pub artifact_src: String,
    pub plan: StagingPlan,
    pub hygiene_rendering: Option<String>,
    pub state: RunState,
}

/// Wraps the fragment in the stub, runs the pipeline, and drives the run to
/// `Rendered` through the three fail-fast checkpoints: a broken invariant at
/// any of them aborts before the next stage runs. Helper injection happens
/// only after the diagnostic rendering, never before a comparison.
pub fn prepare_execution<F: Frontend, T: Pass, H: Pass, X: Pass, I: Pass>(
    tester: &mut Tester<F>,
    tr: &mut T,
    hygiene: &mut H,
    fixer: &mut X,
    helpers: &mut I,
    test_name: &str,
    dialect: Dialect,
    input: &str,
    base_dir: &str,
    dump_hygiene: bool,
) -> (r: Result<ExecutionArtifact, Failure>)
    ensures
        old(tester).diagnostics@.is_prefix_of(final(tester).diagnostics@),
        r matches Err(f) ==> (f == Failure::Parse || f == Failure::Invariant(
            Checkpoint::PostParse,
        ) || f == Failure::Invariant(Checkpoint::PostTransform) || f == Failure::Invariant(
            Checkpoint::PostHygiene,
        ) || f == Failure::Invariant(Checkpoint::PostFixer)),
        r matches Ok(a) ==> {
            &&& a.plan.root@ == staging_root_s(base_dir@, test_name@)
            &&& a.plan.artifact_file@ == artifact_file_s(test_name@)
            &&& a.state == RunState::Rendered
            &&& ((a.hygiene_rendering is Some) <==> dump_hygiene)
        },
{
    let stub = wrap_in_stub(input);
    let module = match tester.apply_transform(tr, "input.js", dialect, stub.as_str()) {
        Ok(m) => m,
        Err(f) => {
            return Err(f);
        },
    };
    let mut state = advance(RunState::Parsed, RunEvent::Checkpoint { ok: validate(&module) });
    if !matches!(state, RunState::Transformed) {
        return Err(Failure::Invariant(Checkpoint::PostTransform));
    }
    let hygiene_rendering = if dump_hygiene {
        let annotated = hygiene_visualize(&module);
        Some(print_module(&annotated))
    } else {
        None
    };
    let module = hygiene.run_pass(module);
    state = advance(state, RunEvent::Checkpoint { ok: validate(&module) });
    if !matches!(state, RunState::HygieneChecked) {
        return Err(Failure::Invariant(Checkpoint::PostHygiene));
    }
    let module = fixer.run_pass(module);
    state = advance(state, RunEvent::Checkpoint { ok: validate(&module) });
    if !matches!(state, RunState::FixerChecked) {
        return Err(Failure::Invariant(Checkpoint::PostFixer));
    }
    let display_src = print_module(&module);
    let module = helpers.run_pass(module);
    let artifact_src = print_module(&module);
    state = advance(state, RunEvent::RenderDone);
    let plan = staging_plan(base_dir, test_name);
    Ok(ExecutionArtifact { display_src, artifact_src, plan, hygiene_rendering, state })
}

} // verus!

//! The transform pipeline: parse a source text under a dialect, collect the
//! parser's diagnostics and fail on a fatal parse, sanity-check the fresh
//! tree, apply the transform under test, strip position metadata (keeping
//! scope-context tags for later hygiene resolution), and canonicalize.
//!
//! The parser and the passes are external collaborators reached through the
//! `Frontend` and `Pass` ports; every decision between their calls is made
//! here and verified.
use vstd::prelude::*;

use crate::ast::Dialect;
use crate::ast::Module;
use crate::ast::SModule;
use crate::ast::Stmt;
use crate::normalize::lemma_normalize_module_idempotent;
use crate::normalize::lemma_normalize_strip_commute_module;
use crate::normalize::normalize_module;
use crate::normalize::normalize_module_s;
use crate::strip::lemma_strip_module_idempotent;
use crate::strip::strip_module;
use crate::strip::strip_module_s;
use crate::validate::validate;

verus! {

/// An error or warning reported by the parser; collected into the run's
/// sink, emitted before any failure, non-fatal by itself.
pub struct Diagnostic {
    pub message: String,
}

/// What a parse attempt hands back: the tree, absent on a fatal error, and
/// every diagnostic the parser reported along the way.
pub struct ParseOutcome<T> {
    pub value: Option<T>,
    pub diagnostics: Vec<Diagnostic>,
}

/// The pipeline's checkpoints: where a tree invariant may be found broken.
#[derive(Clone, Copy, PartialEq, Eq, Structural, Debug)]
pub enum Checkpoint {
    PostParse,
    PostTransform,
    PostHygiene,
    PostFixer,
}

/// A failure that terminates a run before any comparison is reached.
#[derive(Clone, Copy, PartialEq, Eq, Structural, Debug)]
pub enum Failure {
    /// The parser reported a fatal error; diagnostics were emitted first.
    Parse,
    /// A single statement was requested but the source held none or several.
    NotSingleStatement,
    /// A tree invariant was broken at the named checkpoint; later stages
    /// never ran.
    Invariant(Checkpoint),
}

/// The parser port: turns a named source text under a dialect into a tree
/// plus diagnostics. Implemented outside the library by the real parser.
pub trait Frontend {
    fn parse_module(&mut self, name: &str, dialect: Dialect, src: &str) -> ParseOutcome<Module>;

    fn parse_script(&mut self, name: &str, dialect: Dialect, src: &str) -> ParseOutcome<
        Vec<Stmt>,
    >;
}

/// A tree-to-tree pass: the transform under test, hygiene resolution, the
/// fixer, or helper injection. Implemented by the library's users.
pub trait Pass {
    fn run_pass(&mut self, m: Module) -> Module;
}

/// The transform that changes nothing: the expected side of a comparison
/// runs the pipeline with it.
pub struct IdentityPass;

impl Pass for IdentityPass {
    fn run_pass(&mut self, m: Module) -> (r: Module)
        ensures
            r@ == m@,
    {
        m
    }
}

pub proof fn lemma_prefix_extend<T>(s: Seq<T>, t: Seq<T>)
    ensures
        s.is_prefix_of(s + t),
{
    assert((s + t).subrange(0, s.len() as int) =~= s);
}

/// Emits every collected diagnostic into the sink, then fails exactly when
/// the parse reported no tree.
pub fn ingest<T>(out: ParseOutcome<T>, sink: &mut Vec<Diagnostic>) -> (r: Result<T, Failure>)
    ensures
        final(sink)@ == old(sink)@ + out.diagnostics@,
        match r {
            Ok(v) => out.value == Some(v),
            Err(f) => out.value is None && f == Failure::Parse,
        },
{
    let ParseOutcome { value, mut diagnostics } = out;
    sink.append(&mut diagnostics);
    match value {
        Some(v) => Ok(v),
        None => Err(Failure::Parse),
    }
}

/// Takes the sole statement of a parsed script; rejects any other count.
pub fn single_stmt(stmts: Vec<Stmt>) -> (r: Option<Stmt>)
    ensures
        match r {
            Some(s) => stmts@.len() == 1 && s == stmts@[0],
            None => stmts@.len() != 1,
        },
{
    let mut stmts = stmts;
    if stmts.len() == 1 {
        stmts.pop()
    } else {
        None
    }
}

/// A canonical tree: stripped of position metadata and free of
/// representation-level noise — what the equivalence checker compares.
pub open spec fn is_canonical(m: SModule) -> bool {
    strip_module_s(m, true) == m && normalize_module_s(m) == m
}

/// Strip position metadata (keeping scope-context tags), then canonicalize.
pub fn canonicalize(m: &Module) -> (r: Module)
    ensures
        r@ == normalize_module_s(strip_module_s(m@, true)),
        is_canonical(r@),
{
    let stripped = strip_module(m, true);
    let canon = normalize_module(&stripped);
    proof {
        lemma_strip_module_idempotent(m@, true);
        lemma_normalize_strip_commute_module(strip_module_s(m@, true), true);
        lemma_normalize_module_idempotent(strip_module_s(m@, true));
    }
    canon
}

/// One verification run's context: the parser port and the diagnostic sink,
/// threaded explicitly; the sink lives exactly as long as the run.
pub struct Tester<F: Frontend> {
    pub frontend: F,
    pub diagnostics: Vec<Diagnostic>,
}

impl<F: Frontend> Tester<F> {
    pub fn new(frontend: F) -> (r: Tester<F>)
        ensures
            r.diagnostics@.len() == 0,
    {
        Tester { frontend, diagnostics: Vec::new() }
    }

    /// Parses a whole module; diagnostics are emitted into the sink, and the
    /// sink only grows.
    pub fn parse_module(&mut self, name: &str, dialect: Dialect, src: &str) -> (r: Result<
        Module,
        Failure,
    >)
        ensures
            old(self).diagnostics@.is_prefix_of(final(self).diagnostics@),
            r matches Err(f) ==> f == Failure::Parse,
    {
        let out = self.frontend.parse_module(name, dialect, src);
        let r = ingest(out, &mut self.diagnostics);
        proof {
            lemma_prefix_extend(old(self).diagnostics@, out.diagnostics@);
        }
        r
    }

    /// Parses a script into its statement list.
    pub fn parse_stmts(&mut self, name: &str, dialect: Dialect, src: &str) -> (r: Result<
        Vec<Stmt>,
        Failure,
    >)
        ensures
            old(self).diagnostics@.is_prefix_of(final(self).diagnostics@),
            r matches Err(f) ==> f == Failure::Parse,
    {
        let out = self.frontend.parse_script(name, dialect, src);
        let r = ingest(out, &mut self.diagnostics);
        proof {
            lemma_prefix_extend(old(self).diagnostics@, out.diagnostics@);
        }
        r
    }

    /// Parses a script expected to hold exactly one statement.
    pub fn parse_stmt(&mut self, name: &str, dialect: Dialect, src: &str) -> (r: Result<
        Stmt,
        Failure,
    >)
        ensures
            old(self).diagnostics@.is_prefix_of(final(self).diagnostics@),
            r matches Err(f) ==> (f == Failure::Parse || f == Failure::NotSingleStatement),
    {
        let stmts = match self.parse_stmts(name, dialect, src) {
            Ok(s) => s,
            Err(f) => {
                return Err(f);
            },
        };
        match single_stmt(stmts) {
            Some(s) => Ok(s),
            None => Err(Failure::NotSingleStatement),
        }
    }

    /// The pipeline: parse, emit diagnostics and fail on a fatal parse,
    /// sanity-check the fresh tree, run the transform under test, strip
    /// position metadata, canonicalize. A success is always a canonical tree.
    pub fn apply_transform<T: Pass>(
        &mut self,
        tr: &mut T,
        name: &str,
        dialect: Dialect,
        src: &str,
    ) -> (r: Result<Module, Failure>)
        ensures
            old(self).diagnostics@.is_prefix_of(final(self).diagnostics@),
            r matches Ok(m) ==> is_canonical(m@),
            r matches Err(f) ==> (f == Failure::Parse || f == Failure::Invariant(
                Checkpoint::PostParse,
            )),
    {
        let module = match self.parse_module(name, dialect, src) {
            Ok(m) => m,
            Err(f) => {
                return Err(f);
            },
        };
        if !validate(&module) {
            return Err(Failure::Invariant(Checkpoint::PostParse));
        }
        let module = tr.run_pass(module);
        Ok(canonicalize(&module))
    }

    /// Renders a tree to source text.
    pub fn print(&self, m: &Module) -> (r: String)
        ensures
            r@ == crate::print::print_module_s(m@),
    {
        crate::print::print_module(m)
    }
}

} // verus!

//! Verifies that a source-to-source program transformation preserves intended
//! structure: the transform under test is applied to an input program and the
//! result is compared against a hand-written expected program, first
//! structurally, then — on explicit opt-in — textually. A separate harness
//! stages a transformed program on disk and delegates to an external runner
//! to check runtime behaviour.
pub mod ast;
pub mod checker;
pub mod execution;
pub mod hygiene_viz;
pub mod normalize;
pub mod pipeline;
pub mod print;
pub mod strip;
pub mod validate;

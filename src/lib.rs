//! Lessons, quizzes and a sandboxed pipeline that compiles and runs a
//! learner's Rust snippet under time budgets.
use vstd::prelude::*;

pub mod safety;
pub mod text;
pub mod workspace;
pub mod pipeline;
pub mod quiz;
pub mod lessons;

verus! {

} // verus!

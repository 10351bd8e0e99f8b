//! Outcome classification for retry and polling loops.
//!
//! Every completed attempt is sorted into a three-way [`Verdict`]: return it to
//! the caller, retry it, or abort with a projected payload. The vocabulary lives
//! in [`decision`], the `Result`-shaped predicates in [`predicate`], and the
//! terminal error of a loop in [`engine`].

pub mod decision;
pub mod engine;
pub mod predicate;

pub use decision::{
    ClosureClassifier, Decide, Decision, DefaultClassifier, IntoDecision, Outcome, Until, Verdict,
    When,
};

pub use engine::error::{RetryError, RetryResult};
pub use engine::state::StopReason;
pub use predicate::Predicate;

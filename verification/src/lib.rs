//! A typed test-dispatch engine: routes a dynamically-typed trace step
//! through an ordered chain of differently-typed test predicates, folding
//! the per-predicate verdicts into one final verdict per step.

pub mod input;
pub mod predicates;
pub mod tester;
pub mod tlc;

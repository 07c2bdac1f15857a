//! A lint check that reports function declarations and `var` declarations
//! that do not sit directly at the root of their governing scope.
//!
//! - `tree`: the syntax tree the check reads.
//! - `collect`: the first pass, the set of declarations already at a root.
//! - `scan`: the second pass, the declarations to report, in source order.
//! - `rule`: diagnostics with the rule's code, message and hint.
//! - `laws`: properties of the check over every tree.
pub mod tree;
pub mod collect;
pub mod scan;
pub mod rule;
pub mod laws;

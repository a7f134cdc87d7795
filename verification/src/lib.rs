//! An abstract-syntax model of the Mobile Ambients process calculus
//! (Cardelli & Gordon): the two-sorted grammar of capabilities `M`
//! (movement and action primitives) and processes `P` (restriction,
//! inactivity, parallel composition, replication, ambients, actions,
//! input and output).
//!
//! The crate is pure data construction: one factory per grammar production,
//! each total and each pinning its result down exactly. Values are finite,
//! immutable trees built bottom-up; every composite node exclusively owns
//! its children. No reduction, structural congruence, substitution or
//! pretty-printing is defined here — a consumer (parser, interpreter)
//! treats these trees as its read-only input grammar.

pub mod capabilities;
pub mod processes;

//! Line-oriented rewriting of a child command's output by substitution rules.
pub mod laws;
pub mod pattern;
pub mod rules;
pub mod supervisor;
pub mod text;

//! The instructions, by family.

pub mod loads;

//! A small learner record, a greeting, and the lines of a demonstration
//! program (its loops, its grade match and its report on reading a line),
//! each computed as a value with a stated result.

pub mod decimal;
pub mod student;
pub mod greeting;
pub mod script;
pub mod demo;

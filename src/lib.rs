//! Static evaluation of JavaScript binary expressions: a value lattice,
//! one handler per operator family, and an iterative driver for
//! left-associative chains.

pub mod number;
pub mod range;
pub mod value;
pub mod compare;
pub mod logical;
pub mod add;
pub mod ast;
pub mod const_fold;
pub mod chain;
pub mod amd;
pub mod header;
pub mod laws;

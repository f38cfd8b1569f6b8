//! The execution core of a small bytecode virtual machine: a registry of loaded
//! classes, per-class symbol tables, typed frames, and an interpreter whose every
//! instruction is proved to follow the semantics in `semantics`.
use vstd::prelude::*;

pub mod class_file;
pub mod frame;
pub mod symbols;
pub mod semantics;
pub mod runtime;
pub mod laws;

verus! {

} // verus!

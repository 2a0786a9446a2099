//! Decodes compiled class containers and translates their entry method into
//! x86-64 assembly text.
//!
//! `bytecode::parse_bytecode` decodes a whole container; `x86_64::codegen`
//! turns the result into an `assembly::Assembly` listing. Each step's result
//! is stated exactly by a spec function of its module.
use vstd::prelude::*;

pub mod error;
pub mod endianness;
pub mod bytes;
pub mod constantpool;
pub mod attribute;
pub mod method;
pub mod bytecode;
pub mod text;
pub mod assembly;
pub mod x86_64;

verus! {

} // verus!

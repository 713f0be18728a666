//! Intermediate representation and staged compilation pipeline for lowering
//! control-flow-graph programs to a stack-machine assembly target.
//!
//! The crate has three parts:
//!
//! - an instruction and value model ([`instruction`], [`ir`]): the closed
//!   vocabulary of operations, operands, typed values and control-flow
//!   successors that make up a function body, together with the recursive
//!   global-value expression sub-language;
//! - translation configuration ([`config`]): the import/export metadata that
//!   parameterizes how a front end builds the IR;
//! - the compilation pipeline ([`stage`], [`codegen`]): the uniform stage
//!   protocol every phase satisfies, and the final code-generation stage that
//!   lowers linked programs or unlinked module collections while preserving
//!   their duality.
//!
//! Field elements ([`felt`]) implement the arithmetic of the target machine's
//! prime field.

pub mod codegen;
pub mod config;
pub mod stage;
pub mod felt;
pub mod instruction;
pub mod ir;

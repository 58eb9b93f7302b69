//! A checker for matching-logic proofs serialised as a stream of opcodes.
//!
//! `term` holds patterns and their models, with substitution and structural
//! equality; `instruction` the opcode set; `machine` the stack machine that
//! replays a stream; `laws` the properties proved of it.
pub mod error;
pub mod instruction;
pub mod laws;
pub mod machine;
pub mod term;

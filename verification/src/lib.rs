//! A verified translator from classic packet-filter bytecode to a small,
//! structured intermediate representation.
//!
//! The virtual machine has an accumulator `A`, an index register `X` and a
//! sixteen-word scratch array `M`, all 32-bit. Each source instruction is
//! decoded, given a basic block of its own, and lowered to one IR operation;
//! the finished module is checked for structural well-formedness, serialized
//! to text, and can be run by the reference evaluator.

pub mod converter;
pub mod insn;
pub mod interp;
pub mod ir;
pub mod laws;
pub mod semantics;
pub mod text;
pub mod translate;

pub use insn::Insn;
pub use ir::{AluOp, Assign, Block, CondOp, Lvalue, Module, Offset, Rvalue, Scalar, Size, Term};
pub use ir::{SpecBlock, SpecModule};
pub use converter::Converter;
pub use translate::{ConvertError, Emit};

//! Translation of a 32-bit RISC instruction stream into a program for an
//! arithmetic-constraint machine: peephole fusion of address idioms, removal
//! of linker stub routines, deterministic data layout and serialization,
//! constant folding of resolved symbols, per-opcode lowering into the target
//! assembly dialect, and assembly of the final program text.
use vstd::prelude::*;

pub mod ast;
pub mod consteval;
pub mod data;
pub mod fuser;
pub mod lower;
pub mod object;
pub mod program;
pub mod semantics;
pub mod stubs;
pub mod subst;
pub mod target;
pub mod text;

verus! {

/// A source register index. Register 0 is hard-wired to zero and is never a
/// valid write target.
#[derive(Clone, Copy, PartialEq, Eq, Structural, Debug)]
pub struct Register {
    value: u8,
}

impl Register {
    pub closed spec fn spec_value(&self) -> u8 {
        self.value
    }

    pub fn new(value: u8) -> (r: Self)
        ensures
            r.spec_value() == value,
    {
        Self { value }
    }

    pub fn is_zero(&self) -> (r: bool)
        ensures
            r == (self.spec_value() == 0),
    {
        self.value == 0
    }

    /// The register index.
    pub fn index(&self) -> (r: u8)
        ensures
            r == self.spec_value(),
    {
        self.value
    }
}

/// The retargeting compiler from the source instruction set to the
/// arithmetic-constraint target machine.
#[derive(Default)]
pub struct Risc {}

/// The two address-half reference operators: high half (`%hi`) and low half
/// (`%lo`) of a symbol's address.
#[derive(Clone, Copy, PartialEq, Eq, Structural, Debug)]
pub enum FunctionKind {
    HiDataRef,
    LoDataRef,
}

} // verus!

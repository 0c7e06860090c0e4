use vstd::prelude::*;

verus! {

/// Why a memory access or an execution step failed.
#[derive(Clone, Copy, PartialEq, Eq, Structural, Debug)]
pub enum Fault {
    /// An access at an address at or beyond the current memory length.
    OutOfBounds(usize),
    /// A fetched byte that matches no opcode, with the address it was fetched from.
    UnknownOpcode { byte: u8, address: usize },
}

} // verus!

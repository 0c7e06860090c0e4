use vstd::prelude::*;

verus! {

/// Number of registers in the closed register set.
pub const REGISTER_COUNT: usize = 10;

/// Identifier of one register of the machine, in enumeration order.
#[derive(Clone, Copy, PartialEq, Eq, Structural, Debug, Hash, PartialOrd, Ord)]
pub enum Register {
    IP,
    ACC,
    R1,
    R2,
    R3,
    R4,
    R5,
    R6,
    R7,
    R8,
}

/// All registers, in enumeration order.
pub open spec fn all_registers() -> Seq<Register> {
    seq![
        Register::IP,
        Register::ACC,
        Register::R1,
        Register::R2,
        Register::R3,
        Register::R4,
        Register::R5,
        Register::R6,
        Register::R7,
        Register::R8,
    ]
}

impl Register {
    /// Position of the register in enumeration order.
    pub open spec fn index(self) -> int {
        match self {
            Register::IP => 0,
            Register::ACC => 1,
            Register::R1 => 2,
            Register::R2 => 3,
            Register::R3 => 4,
            Register::R4 => 5,
            Register::R5 => 6,
            Register::R6 => 7,
            Register::R7 => 8,
            Register::R8 => 9,
        }
    }

    /// The bracketed name under which the register is shown.
    pub open spec fn label(self) -> Seq<char> {
        match self {
            Register::IP => "[IP]"@,
            Register::ACC => "[ACC]"@,
            Register::R1 => "[R1]"@,
            Register::R2 => "[R2]"@,
            Register::R3 => "[R3]"@,
            Register::R4 => "[R4]"@,
            Register::R5 => "[R5]"@,
            Register::R6 => "[R6]"@,
            Register::R7 => "[R7]"@,
            Register::R8 => "[R8]"@,
        }
    }

    /// Position of the register in enumeration order.
    pub fn position(&self) -> (r: usize)
        ensures
            r as int == self.index(),
            r < REGISTER_COUNT,
    {
        match self {
            Register::IP => 0,
            Register::ACC => 1,
            Register::R1 => 2,
            Register::R2 => 3,
            Register::R3 => 4,
            Register::R4 => 5,
            Register::R5 => 6,
            Register::R6 => 7,
            Register::R7 => 8,
            Register::R8 => 9,
        }
    }

    /// All registers, in enumeration order.
    pub fn values() -> (r: Vec<Register>)
        ensures
            r@ == all_registers(),
    {
        let r = vec![
            Register::IP,
            Register::ACC,
            Register::R1,
            Register::R2,
            Register::R3,
            Register::R4,
            Register::R5,
            Register::R6,
            Register::R7,
            Register::R8,
        ];
        assert(r@ =~= all_registers());
        r
    }

    /// How many registers the machine has.
    pub fn register_amount() -> (r: usize)
        ensures
            r == all_registers().len(),
            r == REGISTER_COUNT,
    {
        let v = Self::values();
        v.len()
    }

    /// The bracketed name under which the register is shown, such as `[ACC]`.
    pub fn name(&self) -> (r: String)
        ensures
            r@ == self.label(),
    {
        match self {
            Register::IP => String::from_str("[IP]"),
            Register::ACC => String::from_str("[ACC]"),
            Register::R1 => String::from_str("[R1]"),
            Register::R2 => String::from_str("[R2]"),
            Register::R3 => String::from_str("[R3]"),
            Register::R4 => String::from_str("[R4]"),
            Register::R5 => String::from_str("[R5]"),
            Register::R6 => String::from_str("[R6]"),
            Register::R7 => String::from_str("[R7]"),
            Register::R8 => String::from_str("[R8]"),
        }
    }
}

/// Enumeration order and position agree, and every register has a distinct place.
pub proof fn lemma_register_order(r: Register)
    ensures
        0 <= r.index() < all_registers().len(),
        all_registers()[r.index()] == r,
{
}

} // verus!

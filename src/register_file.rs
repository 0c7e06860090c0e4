use vstd::prelude::*;

use crate::register::{all_registers, Register, REGISTER_COUNT};

verus! {

/// The characters `'0'` to `'9'`.
pub open spec fn digit_char(d: nat) -> char {
    seq!['0', '1', '2', '3', '4', '5', '6', '7', '8', '9'][d as int]
}

/// Decimal notation of `n`, without leading zeros.
pub open spec fn decimal_text(n: nat) -> Seq<char>
    decreases n,
{
    if n < 10 {
        seq![digit_char(n)]
    } else {
        decimal_text(n / 10).push(digit_char(n % 10))
    }
}

/// One entry of the dump, such as `[R1] -> 5; `.
pub open spec fn entry_text(r: Register, v: u16) -> Seq<char> {
    r.label() + " -> "@ + decimal_text(v as nat) + "; "@
}

/// The entries of the first `n` registers, in enumeration order.
pub open spec fn entries_text(values: Seq<u16>, n: nat) -> Seq<char>
    decreases n,
{
    if n == 0 {
        Seq::empty()
    } else {
        entries_text(values, (n - 1) as nat) + entry_text(
            all_registers()[n - 1],
            values[n - 1],
        )
    }
}

/// The dump of a whole register file.
pub open spec fn dump_text(values: Seq<u16>) -> Seq<char> {
    entries_text(values, REGISTER_COUNT as nat)
}

/// The value of every register, indexed by enumeration order.
pub struct RegisterFile {
    values: [u16; 10],
}

impl View for RegisterFile {
    type V = Seq<u16>;

    closed spec fn view(&self) -> Seq<u16> {
        self.values@
    }
}

impl RegisterFile {
    /// The register file holds exactly one value per register.
    pub proof fn lemma_total(&self)
        ensures
            self@.len() == REGISTER_COUNT,
    {
    }

    /// Every register set to 0.
    pub fn new() -> (r: RegisterFile)
        ensures
            r@ == Seq::new(REGISTER_COUNT as nat, |i: int| 0u16),
    {
        let r = RegisterFile { values: [0u16, 0, 0, 0, 0, 0, 0, 0, 0, 0] };
        assert(r@ =~= Seq::new(REGISTER_COUNT as nat, |i: int| 0u16));
        r
    }

    /// The value of `reg`.
    pub fn get(&self, reg: Register) -> (r: u16)
        ensures
            r == self@[reg.index()],
    {
        proof {
            self.lemma_total();
        }
        let i = reg.position();
        self.values[i]
    }

    /// Overwrites the value of `reg`.
    pub fn set(&mut self, reg: Register, value: u16)
        ensures
            final(self)@ == old(self)@.update(reg.index(), value),
    {
        proof {
            old(self).lemma_total();
        }
        let i = reg.position();
        self.values[i] = value;
    }

    /// Human-readable dump of all registers in enumeration order, such as
    /// `[IP] -> 0; [ACC] -> 8; ...`.
    pub fn display(&self) -> (r: String)
        ensures
            r@ == dump_text(self@),
    {
        proof {
            self.lemma_total();
        }
        let regs = Register::values();
        let mut out = String::new();
        let mut i: usize = 0;
        while i < REGISTER_COUNT
            invariant
                i <= REGISTER_COUNT,
                regs@ == all_registers(),
                self@.len() == REGISTER_COUNT,
                out@ == entries_text(self@, i as nat),
            decreases REGISTER_COUNT - i,
        {
            let reg = regs[i];
            let name = reg.name();
            out.append(name.as_str());
            out.append(" -> ");
            push_decimal(&mut out, self.values[i]);
            out.append("; ");
            proof {
                assert(out@ =~= entries_text(self@, (i + 1) as nat));
            }
            i = i + 1;
        }
        out
    }
}

/// Appends one decimal digit.
fn push_digit(out: &mut String, d: u16)
    requires
        d < 10,
    ensures
        final(out)@ == old(out)@.push(digit_char(d as nat)),
{
    let c = if d == 0 {
        proof { reveal_strlit("0"); }
        "0"
    } else if d == 1 {
        proof { reveal_strlit("1"); }
        "1"
    } else if d == 2 {
        proof { reveal_strlit("2"); }
        "2"
    } else if d == 3 {
        proof { reveal_strlit("3"); }
        "3"
    } else if d == 4 {
        proof { reveal_strlit("4"); }
        "4"
    } else if d == 5 {
        proof { reveal_strlit("5"); }
        "5"
    } else if d == 6 {
        proof { reveal_strlit("6"); }
        "6"
    } else if d == 7 {
        proof { reveal_strlit("7"); }
        "7"
    } else if d == 8 {
        proof { reveal_strlit("8"); }
        "8"
    } else {
        proof { reveal_strlit("9"); }
        "9"
    };
    assert(c@ =~= seq![digit_char(d as nat)]);
    out.append(c);
}

/// Appends the decimal notation of `n`.
fn push_decimal(out: &mut String, n: u16)
    ensures
        final(out)@ == old(out)@ + decimal_text(n as nat),
    decreases n,
{
    let ghost start = out@;
    if n >= 10 {
        push_decimal(out, n / 10);
    }
    push_digit(out, n % 10);
    assert(out@ =~= start + decimal_text(n as nat));
}

} // verus!

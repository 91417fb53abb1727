//! The registers of the target machine.

use vstd::prelude::*;

pub mod arm64;
pub mod x64;

verus! {

/// A general purpose register of x86-64. `RIP` is no such register: as the
/// base of an address it stands for addressing relative to the instruction
/// pointer.
#[allow(non_camel_case_types)]
#[derive(Debug, Copy, Clone, PartialEq, Eq, Structural)]
pub enum Reg {
    RAX,
    RCX,
    RDX,
    RBX,
    RSP,
    RBP,
    RSI,
    RDI,
    R8,
    R9,
    R10,
    R11,
    R12,
    R13,
    R14,
    R15,
    RIP,
}

impl Reg {
    /// The number of the register in an instruction.
    pub open spec fn spec_int(self) -> int {
        match self {
            Reg::RAX => 0,
            Reg::RCX => 1,
            Reg::RDX => 2,
            Reg::RBX => 3,
            Reg::RSP => 4,
            Reg::RBP => 5,
            Reg::RSI => 6,
            Reg::RDI => 7,
            Reg::R8 => 8,
            Reg::R9 => 9,
            Reg::R10 => 10,
            Reg::R11 => 11,
            Reg::R12 => 12,
            Reg::R13 => 13,
            Reg::R14 => 14,
            Reg::R15 => 15,
            Reg::RIP => 16,
        }
    }

    /// The fourth bit of the number, which stands in the prefix of an
    /// instruction: set for `R8` to `R15`.
    pub open spec fn spec_msb(self) -> int {
        match self {
            Reg::R8
            | Reg::R9
            | Reg::R10
            | Reg::R11
            | Reg::R12
            | Reg::R13
            | Reg::R14
            | Reg::R15 => 1,
            Reg::RIP => 2,
            _ => 0,
        }
    }

    /// The low three bits of the number, which stand in the instruction
    /// itself.
    pub open spec fn spec_and7(self) -> int {
        match self {
            Reg::RAX | Reg::R8 | Reg::RIP => 0,
            Reg::RCX | Reg::R9 => 1,
            Reg::RDX | Reg::R10 => 2,
            Reg::RBX | Reg::R11 => 3,
            Reg::RSP | Reg::R12 => 4,
            Reg::RBP | Reg::R13 => 5,
            Reg::RSI | Reg::R14 => 6,
            Reg::RDI | Reg::R15 => 7,
        }
    }

    /// The number of a register is eight times its fourth bit and its low
    /// three bits.
    pub proof fn lemma_number(self)
        ensures
            self.spec_int() == 8 * self.spec_msb() + self.spec_and7(),
            0 <= self.spec_and7() < 8,
    {
    }

    /// Whether the low byte of the register can be named without a prefix.
    pub open spec fn spec_is_basic_reg(self) -> bool {
        self == Reg::RAX || self == Reg::RBX || self == Reg::RCX || self == Reg::RDX
    }

    pub fn number(self) -> (r: u8)
        requires
            self != Reg::RIP,
        ensures
            r == self.spec_int(),
    {
        match self {
            Reg::RAX => 0,
            Reg::RCX => 1,
            Reg::RDX => 2,
            Reg::RBX => 3,
            Reg::RSP => 4,
            Reg::RBP => 5,
            Reg::RSI => 6,
            Reg::RDI => 7,
            Reg::R8 => 8,
            Reg::R9 => 9,
            Reg::R10 => 10,
            Reg::R11 => 11,
            Reg::R12 => 12,
            Reg::R13 => 13,
            Reg::R14 => 14,
            _ => 15,
        }
    }

    pub fn msb(self) -> (r: u8)
        requires
            self != Reg::RIP,
        ensures
            r == self.spec_msb(),
            r <= 1,
    {
        self.number() / 8
    }

    pub fn and7(self) -> (r: u8)
        requires
            self != Reg::RIP,
        ensures
            r == self.spec_and7(),
            r < 8,
    {
        self.number() % 8
    }

    pub fn is_basic_reg(self) -> (r: bool)
        ensures
            r == self.spec_is_basic_reg(),
    {
        self == Reg::RAX || self == Reg::RBX || self == Reg::RCX || self == Reg::RDX
    }
}

/// A floating point register, by its number.
#[derive(Debug, Copy, Clone, PartialEq, Eq, Structural)]
pub struct FReg(pub u8);

/// A register of either kind.
#[derive(Debug, Copy, Clone, PartialEq, Eq, Structural)]
pub enum AnyReg {
    Reg(Reg),
    FReg(FReg),
}

impl AnyReg {
    pub fn is_reg(&self) -> (r: bool)
        ensures
            r == (*self is Reg),
    {
        match self {
            AnyReg::Reg(_) => true,
            _ => false,
        }
    }

    pub fn is_freg(&self) -> (r: bool)
        ensures
            r == (*self is FReg),
    {
        match self {
            AnyReg::FReg(_) => true,
            _ => false,
        }
    }
}

} // verus!

//! The register map of the AW9523B.

use vstd::prelude::*;

verus! {

/// The registers of the chip.
#[derive(Copy, Clone, Debug, PartialEq, Eq, Structural, Hash)]
pub enum Register {
    InputPort0,
    InputPort1,
    OutputPort0,
    OutputPort1,
    ConfigPort0,
    ConfigPort1,
    IntPort0,
    IntPort1,
    Id,
    Ctl,
    LedModeSwitchP0,
    LedModeSwitchP1,
    Dim0,
    Dim1,
    Dim2,
    Dim3,
    Dim4,
    Dim5,
    Dim6,
    Dim7,
    Dim8,
    Dim9,
    Dim10,
    Dim11,
    Dim12,
    Dim13,
    Dim14,
    Dim15,
    SwRstn,
}

impl Register {
    /// The address of the register on the chip.
    pub open spec fn spec_addr(self) -> u8 {
        match self {
            Register::InputPort0 => 0x00,
            Register::InputPort1 => 0x01,
            Register::OutputPort0 => 0x02,
            Register::OutputPort1 => 0x03,
            Register::ConfigPort0 => 0x04,
            Register::ConfigPort1 => 0x05,
            Register::IntPort0 => 0x06,
            Register::IntPort1 => 0x07,
            Register::Id => 0x10,
            Register::Ctl => 0x11,
            Register::LedModeSwitchP0 => 0x12,
            Register::LedModeSwitchP1 => 0x13,
            Register::Dim0 => 0x20,
            Register::Dim1 => 0x21,
            Register::Dim2 => 0x22,
            Register::Dim3 => 0x23,
            Register::Dim4 => 0x24,
            Register::Dim5 => 0x25,
            Register::Dim6 => 0x26,
            Register::Dim7 => 0x27,
            Register::Dim8 => 0x28,
            Register::Dim9 => 0x29,
            Register::Dim10 => 0x2A,
            Register::Dim11 => 0x2B,
            Register::Dim12 => 0x2C,
            Register::Dim13 => 0x2D,
            Register::Dim14 => 0x2E,
            Register::Dim15 => 0x2F,
            Register::SwRstn => 0x7F,
        }
    }

    /// The registers that only the chip writes: the port inputs and the chip id.
    pub open spec fn spec_is_read_only(self) -> bool {
        self == Register::InputPort0 || self == Register::InputPort1 || self == Register::Id
    }

    /// Get the address of the register
    pub fn addr(self) -> (addr: u8)
        ensures
            addr == self.spec_addr(),
    {
        match self {
            Register::InputPort0 => 0x00,
            Register::InputPort1 => 0x01,
            Register::OutputPort0 => 0x02,
            Register::OutputPort1 => 0x03,
            Register::ConfigPort0 => 0x04,
            Register::ConfigPort1 => 0x05,
            Register::IntPort0 => 0x06,
            Register::IntPort1 => 0x07,
            Register::Id => 0x10,
            Register::Ctl => 0x11,
            Register::LedModeSwitchP0 => 0x12,
            Register::LedModeSwitchP1 => 0x13,
            Register::Dim0 => 0x20,
            Register::Dim1 => 0x21,
            Register::Dim2 => 0x22,
            Register::Dim3 => 0x23,
            Register::Dim4 => 0x24,
            Register::Dim5 => 0x25,
            Register::Dim6 => 0x26,
            Register::Dim7 => 0x27,
            Register::Dim8 => 0x28,
            Register::Dim9 => 0x29,
            Register::Dim10 => 0x2A,
            Register::Dim11 => 0x2B,
            Register::Dim12 => 0x2C,
            Register::Dim13 => 0x2D,
            Register::Dim14 => 0x2E,
            Register::Dim15 => 0x2F,
            Register::SwRstn => 0x7F,
        }
    }

    /// Checks if the register is read-only
    pub fn is_read_only(self) -> (read_only: bool)
        ensures
            read_only == self.spec_is_read_only(),
    {
        matches!(self, Register::InputPort0 | Register::InputPort1 | Register::Id)
    }
}

/// No two registers share an address.
pub proof fn lemma_addresses_are_distinct(a: Register, b: Register)
    requires
        a.spec_addr() == b.spec_addr(),
    ensures
        a == b,
{
}

} // verus!

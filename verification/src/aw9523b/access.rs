//! Register accesses as values: what to read, what to write, which bits to
//! change, and the bytes that go over the bus for it.

use vstd::prelude::*;
use crate::aw9523b::error::Error;
use crate::aw9523b::register::Register;

verus! {

/// A change of some bits of a register that leaves the others as they are.
#[derive(Clone, Copy, Debug, PartialEq, Eq, Structural, Hash)]
pub struct BitChange {
    /// The bits that are cleared first.
    pub clear: u8,
    /// The bits that are set after that.
    pub set: u8,
}

/// One access to a register of the chip.
#[derive(Clone, Copy, Debug, PartialEq, Eq, Structural, Hash)]
pub enum Access {
    /// Read the register.
    Read(Register),
    /// Write the value to the register.
    Write(Register, u8),
    /// Read the register, change the bits, and write the result back.
    Modify(Register, BitChange),
}

impl BitChange {
    /// The register value after the change, from the value before it.
    pub open spec fn spec_apply(self, value: u8) -> u8 {
        (value & !self.clear) | self.set
    }

    /// The change that sets `bits`.
    pub open spec fn spec_set_bits(bits: u8) -> BitChange {
        BitChange { clear: 0, set: bits }
    }

    /// The change that clears `bits`.
    pub open spec fn spec_clear_bits(bits: u8) -> BitChange {
        BitChange { clear: bits, set: 0 }
    }

    /// Computes the value to write back.
    pub fn apply(&self, value: u8) -> (changed: u8)
        ensures
            changed == self.spec_apply(value),
    {
        (value & !self.clear) | self.set
    }

    pub fn set_bits(bits: u8) -> (change: BitChange)
        ensures
            change == Self::spec_set_bits(bits),
    {
        BitChange { clear: 0, set: bits }
    }

    pub fn clear_bits(bits: u8) -> (change: BitChange)
        ensures
            change == Self::spec_clear_bits(bits),
    {
        BitChange { clear: bits, set: 0 }
    }
}

impl Access {
    /// The register that the access is about.
    pub open spec fn spec_register(self) -> Register {
        match self {
            Access::Read(register) => register,
            Access::Write(register, _) => register,
            Access::Modify(register, _) => register,
        }
    }

    /// What the register holds after an access that went through, if it held
    /// `before` and nothing else changed it.
    pub open spec fn value_after(self, before: u8) -> u8 {
        match self {
            Access::Read(_) => before,
            Access::Write(_, value) => value,
            Access::Modify(_, change) => change.spec_apply(before),
        }
    }

    pub fn register(&self) -> (register: Register)
        ensures
            register == self.spec_register(),
    {
        match self {
            Access::Read(register) => *register,
            Access::Write(register, _) => *register,
            Access::Modify(register, _) => *register,
        }
    }
}

/// The access that sets `bits` of `register`.
pub fn set_register_bits(register: Register, bits: u8) -> (access: Access)
    ensures
        access == Access::Modify(register, BitChange::spec_set_bits(bits)),
{
    Access::Modify(register, BitChange::set_bits(bits))
}

/// The access that clears `bits` of `register`.
pub fn clear_register_bits(register: Register, bits: u8) -> (access: Access)
    ensures
        access == Access::Modify(register, BitChange::spec_clear_bits(bits)),
{
    Access::Modify(register, BitChange::clear_bits(bits))
}

/// The bytes that write `value` to `register`: its address, then the value.
///
/// A read-only register is never written: the write is refused before anything
/// goes over the bus.
pub fn write_register<E>(register: Register, value: u8) -> (frame: Result<[u8; 2], Error<E>>)
    ensures
        register.spec_is_read_only() <==> frame is Err,
        frame matches Err(e) ==> e is WriteToReadOnly,
        frame matches Ok(bytes) ==> bytes@ == seq![register.spec_addr(), value],
{
    if register.is_read_only() {
        return Err(Error::WriteToReadOnly);
    }
    let bytes = [register.addr(), value];
    assert(bytes@ =~= seq![register.spec_addr(), value]);
    Ok(bytes)
}

/// The byte that selects `register` for the read that follows it.
pub fn read_register(register: Register) -> (frame: [u8; 1])
    ensures
        frame@ == seq![register.spec_addr()],
{
    let bytes = [register.addr()];
    assert(bytes@ =~= seq![register.spec_addr()]);
    bytes
}

/// Setting bits sets them and keeps every other bit.
pub proof fn lemma_set_bits_changes_only_those_bits(value: u8, bits: u8)
    ensures
        BitChange::spec_set_bits(bits).spec_apply(value) & bits == bits,
        BitChange::spec_set_bits(bits).spec_apply(value) & !bits == value & !bits,
        BitChange::spec_set_bits(bits).spec_apply(value) == value | bits,
{
    assert(((value & !0u8) | bits) & bits == bits) by (bit_vector);
    assert(((value & !0u8) | bits) & !bits == value & !bits) by (bit_vector);
    assert(((value & !0u8) | bits) == value | bits) by (bit_vector);
}

/// Clearing bits clears them and keeps every other bit.
pub proof fn lemma_clear_bits_changes_only_those_bits(value: u8, bits: u8)
    ensures
        BitChange::spec_clear_bits(bits).spec_apply(value) & bits == 0,
        BitChange::spec_clear_bits(bits).spec_apply(value) & !bits == value & !bits,
        BitChange::spec_clear_bits(bits).spec_apply(value) == value & !bits,
{
    assert(((value & !bits) | 0u8) & bits == 0) by (bit_vector);
    assert(((value & !bits) | 0u8) & !bits == value & !bits) by (bit_vector);
    assert(((value & !bits) | 0u8) == value & !bits) by (bit_vector);
}

/// A change that has been made changes nothing when it is made again.
pub proof fn lemma_bit_change_is_idempotent(change: BitChange, value: u8)
    ensures
        change.spec_apply(change.spec_apply(value)) == change.spec_apply(value),
{
    let clear = change.clear;
    let set = change.set;
    assert(((((value & !clear) | set) & !clear) | set) == ((value & !clear) | set))
        by (bit_vector);
}

} // verus!

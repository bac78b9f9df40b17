//! The status register and its packing into one byte.

use crate::isa::instruction::Condition;
use crate::isa::Byte;
use vstd::prelude::*;

verus! {

/// The privilege that the processor runs at.
#[derive(Clone, Copy, PartialEq, Eq, Debug, Structural)]
pub enum PrivilegeLevel {
    Kernel,
    User,
}

impl Default for PrivilegeLevel {
    /// The processor starts in kernel mode.
    fn default() -> (level: PrivilegeLevel)
        ensures
            level == PrivilegeLevel::Kernel,
    {
        PrivilegeLevel::Kernel
    }
}

/// The status flags.
#[derive(Clone, Copy, PartialEq, Eq, Debug, Structural)]
pub struct Status {
    pub carry: bool,
    pub zero: bool,
    pub overflow: bool,
    pub negative: bool,
    pub irq_enable: bool,
    pub bank_enable: bool,
    pub privilege_level: PrivilegeLevel,
    pub nmi_active: bool,
}

/// The bit of the status byte that holds the carry flag.
pub const CARRY_BIT: Byte = 0b0000_0001;

/// The bit of the status byte that holds the zero flag.
pub const ZERO_BIT: Byte = 0b0000_0010;

/// The bit of the status byte that holds the overflow flag.
pub const OVERFLOW_BIT: Byte = 0b0000_0100;

/// The bit of the status byte that holds the negative flag.
pub const NEGATIVE_BIT: Byte = 0b0000_1000;

/// The bit of the status byte that holds the interrupt enable flag.
pub const IRQ_ENABLE_BIT: Byte = 0b0001_0000;

/// The bit of the status byte that holds the bank enable flag.
pub const BANK_ENABLE_BIT: Byte = 0b0010_0000;

/// The bit of the status byte that is set in user mode.
pub const PRIVILEGE_BIT: Byte = 0b0100_0000;

/// The bit of the status byte that holds the flag of a non-maskable
/// interrupt in service.
pub const NMI_ACTIVE_BIT: Byte = 0b1000_0000;

/// The bit if the flag is set, zero if it is not.
pub open spec fn flag_bit(flag: bool, bit: Byte) -> Byte {
    if flag {
        bit
    } else {
        0
    }
}

/// The bit if the flag is set, zero if it is not.
fn bit_of(flag: bool, bit: Byte) -> (bits: Byte)
    ensures
        bits == flag_bit(flag, bit),
{
    if flag {
        bit
    } else {
        0
    }
}

impl Status {
    /// The status with every flag clear, in kernel mode.
    pub open spec fn cleared() -> Status {
        Status {
            carry: false,
            zero: false,
            overflow: false,
            negative: false,
            irq_enable: false,
            bank_enable: false,
            privilege_level: PrivilegeLevel::Kernel,
            nmi_active: false,
        }
    }

    /// The status as one byte: from the lowest bit up, carry, zero,
    /// overflow, negative, interrupt enable, bank enable, user mode, and
    /// non-maskable interrupt in service.
    pub open spec fn to_byte_spec(self) -> Byte {
        flag_bit(self.carry, CARRY_BIT) | flag_bit(self.zero, ZERO_BIT) | flag_bit(
            self.overflow,
            OVERFLOW_BIT,
        ) | flag_bit(self.negative, NEGATIVE_BIT) | flag_bit(self.irq_enable, IRQ_ENABLE_BIT)
            | flag_bit(self.bank_enable, BANK_ENABLE_BIT) | flag_bit(
            self.privilege_level == PrivilegeLevel::User,
            PRIVILEGE_BIT,
        ) | flag_bit(self.nmi_active, NMI_ACTIVE_BIT)
    }

    /// The status that a byte stands for.
    pub open spec fn from_byte_spec(byte: Byte) -> Status {
        Status {
            carry: byte & CARRY_BIT != 0,
            zero: byte & ZERO_BIT != 0,
            overflow: byte & OVERFLOW_BIT != 0,
            negative: byte & NEGATIVE_BIT != 0,
            irq_enable: byte & IRQ_ENABLE_BIT != 0,
            bank_enable: byte & BANK_ENABLE_BIT != 0,
            privilege_level: if byte & PRIVILEGE_BIT != 0 {
                PrivilegeLevel::User
            } else {
                PrivilegeLevel::Kernel
            },
            nmi_active: byte & NMI_ACTIVE_BIT != 0,
        }
    }

    /// Whether a jump under the condition is taken. Only equality is wired
    /// to the flags: the magnitude conditions are never met.
    pub open spec fn condition_spec(self, condition: Condition) -> bool {
        match condition {
            Condition::Always => true,
            Condition::Equal => self.zero,
            Condition::NotEqual => !self.zero,
            _ => false,
        }
    }

    /// Packs the status into one byte.
    pub fn to_byte(&self) -> (byte: Byte)
        ensures
            byte == self.to_byte_spec(),
    {
        let user = match self.privilege_level {
            PrivilegeLevel::User => true,
            PrivilegeLevel::Kernel => false,
        };
        bit_of(self.carry, CARRY_BIT) | bit_of(self.zero, ZERO_BIT) | bit_of(
            self.overflow,
            OVERFLOW_BIT,
        ) | bit_of(self.negative, NEGATIVE_BIT) | bit_of(self.irq_enable, IRQ_ENABLE_BIT) | bit_of(
            self.bank_enable,
            BANK_ENABLE_BIT,
        ) | bit_of(user, PRIVILEGE_BIT) | bit_of(self.nmi_active, NMI_ACTIVE_BIT)
    }

    /// Unpacks a status byte.
    pub fn from_byte(byte: Byte) -> (status: Status)
        ensures
            status == Status::from_byte_spec(byte),
    {
        Status {
            carry: (byte & CARRY_BIT) != 0,
            zero: (byte & ZERO_BIT) != 0,
            overflow: (byte & OVERFLOW_BIT) != 0,
            negative: (byte & NEGATIVE_BIT) != 0,
            irq_enable: (byte & IRQ_ENABLE_BIT) != 0,
            bank_enable: (byte & BANK_ENABLE_BIT) != 0,
            privilege_level: if (byte & PRIVILEGE_BIT) != 0 {
                PrivilegeLevel::User
            } else {
                PrivilegeLevel::Kernel
            },
            nmi_active: (byte & NMI_ACTIVE_BIT) != 0,
        }
    }

    /// Whether a jump under the condition is taken.
    pub fn condition(&self, condition: Condition) -> (taken: bool)
        ensures
            taken == self.condition_spec(condition),
    {
        match condition {
            Condition::Always => true,
            Condition::Equal => self.zero,
            Condition::NotEqual => !self.zero,
            _ => false,
        }
    }
}

impl Default for Status {
    /// Every flag clear, in kernel mode.
    fn default() -> (status: Status)
        ensures
            status == Status::cleared(),
    {
        Status {
            carry: false,
            zero: false,
            overflow: false,
            negative: false,
            irq_enable: false,
            bank_enable: false,
            privilege_level: PrivilegeLevel::Kernel,
            nmi_active: false,
        }
    }
}

/// Unpacking a packed status gives the status back.
pub proof fn lemma_status_round_trip(status: Status)
    ensures
        Status::from_byte_spec(status.to_byte_spec()) == status,
{
    let c = status.carry;
    let z = status.zero;
    let o = status.overflow;
    let n = status.negative;
    let i = status.irq_enable;
    let b = status.bank_enable;
    let u = status.privilege_level == PrivilegeLevel::User;
    let a = status.nmi_active;
    let byte = status.to_byte_spec();
    assert({
        &&& (byte & 0x01u8 != 0) == c
        &&& (byte & 0x02u8 != 0) == z
        &&& (byte & 0x04u8 != 0) == o
        &&& (byte & 0x08u8 != 0) == n
        &&& (byte & 0x10u8 != 0) == i
        &&& (byte & 0x20u8 != 0) == b
        &&& (byte & 0x40u8 != 0) == u
        &&& (byte & 0x80u8 != 0) == a
    }) by (bit_vector)
        requires
            byte == (if c { 0x01u8 } else { 0 }) | (if z { 0x02u8 } else { 0 })
                | (if o { 0x04u8 } else { 0 }) | (if n { 0x08u8 } else { 0 })
                | (if i { 0x10u8 } else { 0 }) | (if b { 0x20u8 } else { 0 })
                | (if u { 0x40u8 } else { 0 }) | (if a { 0x80u8 } else { 0 }),
    ;
}

/// Packing an unpacked byte gives the byte back, for every byte.
pub proof fn lemma_byte_round_trip(byte: Byte)
    ensures
        Status::from_byte_spec(byte).to_byte_spec() == byte,
{
    assert(byte == (if byte & 0x01u8 != 0 { 0x01u8 } else { 0 })
        | (if byte & 0x02u8 != 0 { 0x02u8 } else { 0 })
        | (if byte & 0x04u8 != 0 { 0x04u8 } else { 0 })
        | (if byte & 0x08u8 != 0 { 0x08u8 } else { 0 })
        | (if byte & 0x10u8 != 0 { 0x10u8 } else { 0 })
        | (if byte & 0x20u8 != 0 { 0x20u8 } else { 0 })
        | (if byte & 0x40u8 != 0 { 0x40u8 } else { 0 })
        | (if byte & 0x80u8 != 0 { 0x80u8 } else { 0 })) by (bit_vector);
}

} // verus!

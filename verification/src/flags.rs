//! The processor status register: eight named condition flags packed into one
//! byte, so that a push to the stack serializes them atomically.

use vstd::prelude::*;

verus! {

pub const FLAG_NEGATIVE: u8 = 0x80;

pub const FLAG_OVERFLOW: u8 = 0x40;

pub const FLAG_BREAK_LEFT: u8 = 0x20;

pub const FLAG_BREAK_RIGHT: u8 = 0x10;

pub const FLAG_DECIMAL: u8 = 0x08;

pub const FLAG_INTERRUPT_DISABLE: u8 = 0x04;

pub const FLAG_ZERO: u8 = 0x02;

pub const FLAG_CARRY: u8 = 0x01;

/// Why a status byte is being serialized for the stack: a hardware-interrupt
/// push and an executed break instruction encode the two break sub-flags
/// differently.
#[derive(Clone, Copy, Debug, PartialEq, Eq, Structural)]
pub enum BreakType {
    Internal,
    Instruction,
}

/// All eight condition flags as one 8-bit value.
#[derive(Clone, Copy, Debug, PartialEq, Eq, Structural)]
pub struct StatusFlags {
    pub bits: u8,
}

impl StatusFlags {
    /// The flag byte with the bits under `mask` forced to `value`.
    pub open spec fn set_flag(self, mask: u8, value: bool) -> StatusFlags {
        StatusFlags { bits: if value { self.bits | mask } else { self.bits & !mask } }
    }

    /// All bits under `mask` are set.
    pub open spec fn has(self, mask: u8) -> bool {
        self.bits & mask == mask
    }

    pub open spec fn negative(self) -> bool {
        self.has(FLAG_NEGATIVE)
    }

    pub open spec fn overflow(self) -> bool {
        self.has(FLAG_OVERFLOW)
    }

    pub open spec fn break_left(self) -> bool {
        self.has(FLAG_BREAK_LEFT)
    }

    pub open spec fn break_right(self) -> bool {
        self.has(FLAG_BREAK_RIGHT)
    }

    pub open spec fn decimal(self) -> bool {
        self.has(FLAG_DECIMAL)
    }

    pub open spec fn interrupt_disable(self) -> bool {
        self.has(FLAG_INTERRUPT_DISABLE)
    }

    pub open spec fn zero(self) -> bool {
        self.has(FLAG_ZERO)
    }

    pub open spec fn carry(self) -> bool {
        self.has(FLAG_CARRY)
    }

    /// The flag byte with every flag cleared.
    pub fn empty() -> (r: StatusFlags)
        ensures
            r.bits == 0,
    {
        StatusFlags { bits: 0 }
    }

    pub fn bits(&self) -> (r: u8)
        ensures
            r == self.bits,
    {
        self.bits
    }

    pub fn contains(&self, mask: u8) -> (r: bool)
        ensures
            r == self.has(mask),
    {
        self.bits & mask == mask
    }

    pub fn insert(&mut self, mask: u8)
        ensures
            *final(self) == old(self).set_flag(mask, true),
    {
        self.bits = self.bits | mask;
    }

    pub fn remove(&mut self, mask: u8)
        ensures
            *final(self) == old(self).set_flag(mask, false),
    {
        self.bits = self.bits & !mask;
    }

    pub fn set(&mut self, mask: u8, value: bool)
        ensures
            *final(self) == old(self).set_flag(mask, value),
    {
        if value {
            self.insert(mask);
        } else {
            self.remove(mask);
        }
    }

    /// Encode the two break sub-flags for a status byte that is about to be
    /// pushed: an internal (hardware-interrupt) push sets both, an executed
    /// break instruction sets the left one and clears the right one.
    pub fn set_break(&mut self, break_type: BreakType)
        ensures
            *final(self) == match break_type {
                BreakType::Internal => old(self).set_flag(FLAG_BREAK_LEFT, true).set_flag(
                    FLAG_BREAK_RIGHT,
                    true,
                ),
                BreakType::Instruction => old(self).set_flag(FLAG_BREAK_LEFT, true).set_flag(
                    FLAG_BREAK_RIGHT,
                    false,
                ),
            },
    {
        match break_type {
            BreakType::Internal => {
                self.insert(FLAG_BREAK_LEFT);
                self.insert(FLAG_BREAK_RIGHT);
            },
            BreakType::Instruction => {
                self.insert(FLAG_BREAK_LEFT);
                self.remove(FLAG_BREAK_RIGHT);
            },
        }
    }

    pub fn clear_break(&mut self)
        ensures
            *final(self) == old(self).set_flag(FLAG_BREAK_LEFT, false).set_flag(
                FLAG_BREAK_RIGHT,
                false,
            ),
    {
        self.remove(FLAG_BREAK_LEFT);
        self.remove(FLAG_BREAK_RIGHT);
    }
}

/// A single-flag mask: one of the eight named flag bits.
pub open spec fn is_flag_mask(mask: u8) -> bool {
    ||| mask == FLAG_NEGATIVE
    ||| mask == FLAG_OVERFLOW
    ||| mask == FLAG_BREAK_LEFT
    ||| mask == FLAG_BREAK_RIGHT
    ||| mask == FLAG_DECIMAL
    ||| mask == FLAG_INTERRUPT_DISABLE
    ||| mask == FLAG_ZERO
    ||| mask == FLAG_CARRY
}

proof fn lemma_set_bits(b: u8, mask: u8, value: bool, other: u8)
    by (bit_vector)
    requires
        is_flag_mask(mask),
        is_flag_mask(other),
    ensures
        ((if value {
            b | mask
        } else {
            b & !mask
        }) & mask == mask) == value,
        other != mask ==> ((if value {
            b | mask
        } else {
            b & !mask
        }) & other == other) == (b & other == other),
{
}

proof fn lemma_set_flag_one(p: StatusFlags, mask: u8, value: bool, other: u8)
    requires
        is_flag_mask(mask),
        is_flag_mask(other),
    ensures
        p.set_flag(mask, value).has(mask) == value,
        other != mask ==> p.set_flag(mask, value).has(other) == p.has(other),
{
    lemma_set_bits(p.bits, mask, value, other);
}

/// Forcing one named flag reads back as that value and leaves every other
/// named flag untouched.
pub proof fn lemma_set_flag(p: StatusFlags, mask: u8, value: bool)
    requires
        is_flag_mask(mask),
    ensures
        p.set_flag(mask, value).has(mask) == value,
        mask != FLAG_NEGATIVE ==> p.set_flag(mask, value).negative() == p.negative(),
        mask != FLAG_OVERFLOW ==> p.set_flag(mask, value).overflow() == p.overflow(),
        mask != FLAG_BREAK_LEFT ==> p.set_flag(mask, value).break_left() == p.break_left(),
        mask != FLAG_BREAK_RIGHT ==> p.set_flag(mask, value).break_right() == p.break_right(),
        mask != FLAG_DECIMAL ==> p.set_flag(mask, value).decimal() == p.decimal(),
        mask != FLAG_INTERRUPT_DISABLE ==> p.set_flag(mask, value).interrupt_disable() == p.interrupt_disable(),
        mask != FLAG_ZERO ==> p.set_flag(mask, value).zero() == p.zero(),
        mask != FLAG_CARRY ==> p.set_flag(mask, value).carry() == p.carry(),
{
    lemma_set_flag_one(p, mask, value, FLAG_NEGATIVE);
    lemma_set_flag_one(p, mask, value, FLAG_OVERFLOW);
    lemma_set_flag_one(p, mask, value, FLAG_BREAK_LEFT);
    lemma_set_flag_one(p, mask, value, FLAG_BREAK_RIGHT);
    lemma_set_flag_one(p, mask, value, FLAG_DECIMAL);
    lemma_set_flag_one(p, mask, value, FLAG_INTERRUPT_DISABLE);
    lemma_set_flag_one(p, mask, value, FLAG_ZERO);
    lemma_set_flag_one(p, mask, value, FLAG_CARRY);
}

/// The flag byte with the zero and negative flags refreshed from a result
/// byte: the rule every load, transfer, increment and arithmetic operation
/// shares.
pub open spec fn spec_flags_zn(p: StatusFlags, value: u8) -> StatusFlags {
    p.set_flag(FLAG_ZERO, value == 0).set_flag(FLAG_NEGATIVE, value >= 0x80)
}

/// Refreshing zero and negative from a result byte reads back exactly and
/// leaves the six other flags untouched.
pub proof fn lemma_flags_zn(p: StatusFlags, value: u8)
    ensures
        spec_flags_zn(p, value).zero() == (value == 0),
        spec_flags_zn(p, value).negative() == (value >= 0x80),
        spec_flags_zn(p, value).overflow() == p.overflow(),
        spec_flags_zn(p, value).carry() == p.carry(),
        spec_flags_zn(p, value).decimal() == p.decimal(),
        spec_flags_zn(p, value).interrupt_disable() == p.interrupt_disable(),
        spec_flags_zn(p, value).break_left() == p.break_left(),
        spec_flags_zn(p, value).break_right() == p.break_right(),
{
    lemma_set_flag(p, FLAG_ZERO, value == 0);
    lemma_set_flag(p.set_flag(FLAG_ZERO, value == 0), FLAG_NEGATIVE, value >= 0x80);
}

/// The flag byte moved from `p_old` to `p_new` by refreshing zero and
/// negative from a result byte: zero reads back as "the result is 0",
/// negative as "bit 7 of the result is set", and the six other flags keep
/// their old values.
pub open spec fn zn_refreshed(p_old: StatusFlags, p_new: StatusFlags, value: u8) -> bool {
    &&& p_new == spec_flags_zn(p_old, value)
    &&& p_new.zero() == (value == 0)
    &&& p_new.negative() == (value >= 0x80)
    &&& p_new.carry() == p_old.carry()
    &&& p_new.overflow() == p_old.overflow()
    &&& p_new.decimal() == p_old.decimal()
    &&& p_new.interrupt_disable() == p_old.interrupt_disable()
    &&& p_new.break_left() == p_old.break_left()
    &&& p_new.break_right() == p_old.break_right()
}

/// The flag byte moved from `p_old` to `p_new` by forcing exactly one named
/// flag to `value`; the seven other flags keep their old values.
pub open spec fn single_flag_forced(p_old: StatusFlags, p_new: StatusFlags, mask: u8, value: bool) -> bool {
    &&& p_new == p_old.set_flag(mask, value)
    &&& p_new.has(mask) == value
    &&& mask != FLAG_NEGATIVE ==> p_new.negative() == p_old.negative()
    &&& mask != FLAG_OVERFLOW ==> p_new.overflow() == p_old.overflow()
    &&& mask != FLAG_BREAK_LEFT ==> p_new.break_left() == p_old.break_left()
    &&& mask != FLAG_BREAK_RIGHT ==> p_new.break_right() == p_old.break_right()
    &&& mask != FLAG_DECIMAL ==> p_new.decimal() == p_old.decimal()
    &&& mask != FLAG_INTERRUPT_DISABLE ==> p_new.interrupt_disable() == p_old.interrupt_disable()
    &&& mask != FLAG_ZERO ==> p_new.zero() == p_old.zero()
    &&& mask != FLAG_CARRY ==> p_new.carry() == p_old.carry()
}

} // verus!

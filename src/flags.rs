use vstd::prelude::*;

verus! {

/// The eight status flags. `bits` packs them into one byte with fixed
/// positions: bit 7 Negative, 6 Overflow, 5 BreakLeft, 4 BreakRight,
/// 3 Decimal, 2 InterruptDisable, 1 Zero, 0 Carry.
#[derive(Debug, Clone, Copy, PartialEq, Eq, Structural)]
pub struct StatusFlags {
    pub negative: bool,
    pub overflow: bool,
    pub break_left: bool,
    pub break_right: bool,
    pub decimal: bool,
    pub interrupt_disable: bool,
    pub zero: bool,
    pub carry: bool,
}

/// What caused entry into a break: an interrupt raised inside the processor,
/// or a `BRK` instruction.
#[derive(Debug, Clone, Copy, PartialEq, Eq, Structural)]
pub enum BreakType {
    Internal,
    Instruction,
}

pub open spec fn bit(b: bool, weight: int) -> int {
    if b { weight } else { 0 }
}

impl StatusFlags {
    /// The packed status byte.
    pub open spec fn bits_spec(self) -> int {
        bit(self.negative, 128) + bit(self.overflow, 64) + bit(self.break_left, 32)
            + bit(self.break_right, 16) + bit(self.decimal, 8) + bit(
            self.interrupt_disable,
            4,
        ) + bit(self.zero, 2) + bit(self.carry, 1)
    }

    pub open spec fn empty_spec() -> StatusFlags {
        StatusFlags {
            negative: false,
            overflow: false,
            break_left: false,
            break_right: false,
            decimal: false,
            interrupt_disable: false,
            zero: false,
            carry: false,
        }
    }

    /// No flag set.
    pub fn empty() -> (r: StatusFlags)
        ensures
            r == Self::empty_spec(),
    {
        StatusFlags {
            negative: false,
            overflow: false,
            break_left: false,
            break_right: false,
            decimal: false,
            interrupt_disable: false,
            zero: false,
            carry: false,
        }
    }

    /// The flags packed into their byte.
    pub fn bits(&self) -> (r: u8)
        ensures
            r as int == self.bits_spec(),
    {
        let mut r: u8 = 0;
        if self.negative {
            r = r + 128;
        }
        if self.overflow {
            r = r + 64;
        }
        if self.break_left {
            r = r + 32;
        }
        if self.break_right {
            r = r + 16;
        }
        if self.decimal {
            r = r + 8;
        }
        if self.interrupt_disable {
            r = r + 4;
        }
        if self.zero {
            r = r + 2;
        }
        if self.carry {
            r = r + 1;
        }
        r
    }

    /// Marks a break. An internal interrupt sets both break bits; a `BRK`
    /// instruction sets the left one and clears the right one, so that a
    /// pushed status byte tells the two apart. No other flag changes.
    pub fn set_break(&mut self, break_type: BreakType)
        ensures
            final(self).break_left,
            final(self).break_right == (break_type == BreakType::Internal),
            *final(self) == (StatusFlags {
                break_left: final(self).break_left,
                break_right: final(self).break_right,
                ..*old(self)
            }),
    {
        match break_type {
            BreakType::Internal => {
                self.break_left = true;
                self.break_right = true;
            },
            BreakType::Instruction => {
                self.break_left = true;
                self.break_right = false;
            },
        }
    }

    /// Clears both break bits and no other flag.
    pub fn clear_break(&mut self)
        ensures
            *final(self) == (StatusFlags { break_left: false, break_right: false, ..*old(self) }),
    {
        self.break_left = false;
        self.break_right = false;
    }
}

} // verus!

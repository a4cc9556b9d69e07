//! The character's money, by coin denomination.

use vstd::prelude::*;

verus! {

/// Coin counts: platinum, gold, silver and copper pieces.
#[derive(Clone, Copy, PartialEq, Eq, Structural, Debug)]
pub struct Funds {
    pub pp: u32,
    pub gp: u32,
    pub sp: u32,
    pub cp: u32,
}

/// The coin count at position `idx` in the fixed display order.
pub open spec fn spec_funds_nth(f: Funds, idx: u32) -> u32 {
    if idx == 0 {
        f.pp
    } else if idx == 1 {
        f.gp
    } else if idx == 2 {
        f.sp
    } else {
        f.cp
    }
}

/// `f` with the coin count at position `idx` replaced by `v`.
pub open spec fn spec_funds_set_nth(f: Funds, idx: u32, v: u32) -> Funds {
    if idx == 0 {
        Funds { pp: v, ..f }
    } else if idx == 1 {
        Funds { gp: v, ..f }
    } else if idx == 2 {
        Funds { sp: v, ..f }
    } else {
        Funds { cp: v, ..f }
    }
}

impl Funds {
    /// The coin count at position `idx` in the fixed display order:
    /// platinum, gold, silver, copper.
    pub fn nth(&self, idx: u32) -> (r: u32)
        requires
            idx <= 3,
        ensures
            r == spec_funds_nth(*self, idx),
    {
        match idx {
            0 => self.pp,
            1 => self.gp,
            2 => self.sp,
            _ => self.cp,
        }
    }

    /// A mutable handle on the coin count at position `idx`.
    pub fn nth_mut(&mut self, idx: u32) -> (r: &mut u32)
        requires
            idx <= 3,
        ensures
            *r == spec_funds_nth(*old(self), idx),
            *final(self) == spec_funds_set_nth(*old(self), idx, *final(r)),
    {
        match idx {
            0 => &mut self.pp,
            1 => &mut self.gp,
            2 => &mut self.sp,
            _ => &mut self.cp,
        }
    }
}

impl Default for Funds {
    /// New characters start penniless.
    fn default() -> (r: Self)
        ensures
            r == (Funds { pp: 0u32, gp: 0u32, sp: 0u32, cp: 0u32 }),
    {
        Funds { pp: 0, gp: 0, sp: 0, cp: 0 }
    }
}

} // verus!

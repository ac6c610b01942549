use vstd::prelude::*;

verus! {

/// The flags byte at offset 5 of the proximity-pairing record.  The "curr"
/// and "anot" (other) bits describe whichever earbud currently broadcasts and
/// its sibling; `broadcast_from` says which physical side "curr" is.
#[derive(Clone, Copy)]
pub struct Flags {
    pub bits: u8,
}

impl Flags {
    /// Bit 1: the currently broadcasting earbud is in an ear.
    pub open spec fn spec_curr_in_ear(self) -> bool {
        self.bits & 0x02 != 0
    }

    /// Bit 2: both earbuds are in the case.
    pub open spec fn spec_both_in_case(self) -> bool {
        self.bits & 0x04 != 0
    }

    /// Bit 3: the other (non-broadcasting) earbud is in an ear.
    pub open spec fn spec_anot_in_ear(self) -> bool {
        self.bits & 0x08 != 0
    }

    /// Bit 5: the broadcasting earbud is the left one.
    pub open spec fn spec_broadcast_from(self) -> bool {
        self.bits & 0x20 != 0
    }

    pub fn curr_in_ear(&self) -> (r: bool)
        ensures
            r == self.spec_curr_in_ear(),
    {
        self.bits & 0b0000_0010 != 0
    }

    pub fn both_in_case(&self) -> (r: bool)
        ensures
            r == self.spec_both_in_case(),
    {
        self.bits & 0b0000_0100 != 0
    }

    pub fn anot_in_ear(&self) -> (r: bool)
        ensures
            r == self.spec_anot_in_ear(),
    {
        self.bits & 0b0000_1000 != 0
    }

    pub fn broadcast_from(&self) -> (r: bool)
        ensures
            r == self.spec_broadcast_from(),
    {
        self.bits & 0b0010_0000 != 0
    }
}

} // verus!

use vstd::prelude::*;

verus! {

/// The two battery bytes at offsets 6–7 of the proximity-pairing record.
/// `bits` packs the two earbud nibbles; `extra` packs the case nibble and the
/// three charging bits.
#[derive(Clone, Copy)]
pub struct Battery {
    pub bits: u8,
    pub extra: u8,
}

impl Battery {
    /// Low nibble of `bits`: battery level (0–15) of the broadcasting earbud.
    pub open spec fn spec_curr(self) -> u8 {
        self.bits & 0x0F
    }

    /// High nibble of `bits`: battery level (0–15) of the other earbud.
    pub open spec fn spec_anot(self) -> u8 {
        (self.bits >> 4) & 0x0F
    }

    /// Low nibble of `extra`: battery level (0–15) of the case.
    pub open spec fn spec_case_box(self) -> u8 {
        self.extra & 0x0F
    }

    /// Bit 4 of `extra`: the broadcasting earbud is charging.
    pub open spec fn spec_curr_charging(self) -> bool {
        self.extra & 0x10 != 0
    }

    /// Bit 5 of `extra`: the other earbud is charging.
    pub open spec fn spec_anot_charging(self) -> bool {
        self.extra & 0x20 != 0
    }

    /// Bit 6 of `extra`: the case is charging.
    pub open spec fn spec_case_charging(self) -> bool {
        self.extra & 0x40 != 0
    }

    pub fn curr(&self) -> (r: u8)
        ensures
            r == self.spec_curr(),
    {
        self.bits & 0x0F
    }

    pub fn anot(&self) -> (r: u8)
        ensures
            r == self.spec_anot(),
    {
        (self.bits >> 4) & 0x0F
    }

    pub fn case_box(&self) -> (r: u8)
        ensures
            r == self.spec_case_box(),
    {
        self.extra & 0x0F
    }

    pub fn curr_charging(&self) -> (r: bool)
        ensures
            r == self.spec_curr_charging(),
    {
        (self.extra & 0b0001_0000) != 0
    }

    pub fn anot_charging(&self) -> (r: bool)
        ensures
            r == self.spec_anot_charging(),
    {
        (self.extra & 0b0010_0000) != 0
    }

    pub fn case_charging(&self) -> (r: bool)
        ensures
            r == self.spec_case_charging(),
    {
        (self.extra & 0b0100_0000) != 0
    }
}

} // verus!

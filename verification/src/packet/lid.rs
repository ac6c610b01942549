use vstd::prelude::*;

verus! {

/// The lid byte at offset 8 of the proximity-pairing record.
#[derive(Clone, Copy)]
pub struct Lid {
    pub bits: u8,
}

impl Lid {
    /// Low three bits: how often the lid has been opened and closed.
    pub open spec fn spec_switch_count(self) -> u8 {
        self.bits & 0x07
    }

    /// Bit 3: the lid is closed.
    pub open spec fn spec_closed(self) -> bool {
        self.bits & 0x08 != 0
    }

    pub fn switch_count(&self) -> (r: u8)
        ensures
            r == self.spec_switch_count(),
    {
        self.bits & 0b0000_0111
    }

    pub fn closed(&self) -> (r: bool)
        ensures
            r == self.spec_closed(),
    {
        self.bits & 0b0000_1000 != 0
    }
}

} // verus!

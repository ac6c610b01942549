use vstd::prelude::*;

verus! {

/// A physical earbud side.  Each advertisement is broadcast by one side; the
/// flags byte says which, and every left/right derivation pivots on it.
#[derive(Debug, Clone, Copy, PartialEq, Eq, Structural)]
pub enum Side {
    Left,
    Right,
}

impl Side {
    /// The side's display name.
    pub open spec fn spec_name(self) -> Seq<char> {
        match self {
            Side::Left => "Left"@,
            Side::Right => "Right"@,
        }
    }

    /// The side's display name as a string slice.
    pub fn as_str(&self) -> (r: &'static str)
        ensures
            r@ == self.spec_name(),
    {
        match self {
            Side::Left => "Left",
            Side::Right => "Right",
        }
    }
}

} // verus!

use vstd::prelude::*;

verus! {

/// A battery reading that may not be available yet.  Readings come from
/// decoded advertisements; before the first one arrives there is nothing to
/// report, and the queries fall back to harmless defaults.
#[derive(Debug, Clone, Copy, PartialEq, Eq)]
pub struct Battery(pub Option<u32>);

impl Battery {
    /// A reading that is not available.
    pub fn new() -> (r: Battery)
        ensures
            r.0 is None,
    {
        Battery(None)
    }

    /// A reading holding `value`.
    pub fn from_value(value: u32) -> (r: Battery)
        ensures
            r.0 == Some(value),
    {
        Battery(Some(value))
    }

    /// Whether a reading is available.
    pub fn available(&self) -> (r: bool)
        ensures
            r == (self.0 is Some),
    {
        self.0.is_some()
    }

    /// The reading, or 0 when none is available.
    pub fn value(&self) -> (r: u32)
        ensures
            r == (match self.0 {
                Some(v) => v,
                None => 0u32,
            }),
    {
        match self.0 {
            Some(v) => v,
            None => 0,
        }
    }

    /// Whether the reading is at or below the 20% low-battery threshold;
    /// false when no reading is available.
    pub fn is_low_battery(&self) -> (r: bool)
        ensures
            r == (match self.0 {
                Some(v) => v <= 20,
                None => false,
            }),
    {
        match self.0 {
            Some(v) => v <= 20,
            None => false,
        }
    }
}

} // verus!

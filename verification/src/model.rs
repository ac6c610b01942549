use vstd::prelude::*;

verus! {

/// The device model, resolved from the two-byte vendor model code.  Codes
/// outside the closed table map to `Unknown`; they never reject a record.
#[derive(Debug, Clone, Copy, PartialEq, Eq, Structural)]
pub enum Model {
    Unknown,
    AirPods1,
    AirPods2,
    AirPods3,
    AirPodsPro,
    AirPodsPro2,
    AirPodsPro2UsbC,
    AirPodsMax,
}

impl Model {
    /// The model's display name, as it appears in the diagnostic report.
    pub open spec fn spec_name(self) -> Seq<char> {
        match self {
            Model::AirPods1 => "AirPods 1"@,
            Model::AirPods2 => "AirPods 2"@,
            Model::AirPods3 => "AirPods 3"@,
            Model::AirPodsPro => "AirPods Pro"@,
            Model::AirPodsPro2 => "AirPods Pro 2"@,
            Model::AirPodsPro2UsbC => "AirPods Pro 2 (USB-C)"@,
            Model::AirPodsMax => "AirPods Max"@,
            Model::Unknown => "Unknown"@,
        }
    }

    /// The model's display name as a string slice.
    pub fn as_str(&self) -> (r: &'static str)
        ensures
            r@ == self.spec_name(),
    {
        match self {
            Model::AirPods1 => "AirPods 1",
            Model::AirPods2 => "AirPods 2",
            Model::AirPods3 => "AirPods 3",
            Model::AirPodsPro => "AirPods Pro",
            Model::AirPodsPro2 => "AirPods Pro 2",
            Model::AirPodsPro2UsbC => "AirPods Pro 2 (USB-C)",
            Model::AirPodsMax => "AirPods Max",
            Model::Unknown => "Unknown",
        }
    }
}

} // verus!

use vstd::prelude::*;

verus! {

/// Failure of the construction-time identity verification. Transport-level
/// failures are not represented here: the bus hands those to the caller as
/// its own I/O error, unchanged.
#[derive(Clone, Copy, Debug, PartialEq, Eq, Structural)]
pub enum BoardError {
    /// The product-ID register did not hold the expected value: a wrong or
    /// absent device answered at this address.
    DeviceNotDetected,
    /// The product ID matched but the vendor-ID register did not: right
    /// device, incompatible firmware.
    SoftVersion,
}

impl BoardError {
    /// The variant's bare name.
    pub fn name(&self) -> (r: &'static str)
        ensures
            *self == BoardError::DeviceNotDetected ==> r@ == "DeviceNotDetected"@,
            *self == BoardError::SoftVersion ==> r@ == "SoftVersion"@,
    {
        match self {
            BoardError::DeviceNotDetected => "DeviceNotDetected",
            BoardError::SoftVersion => "SoftVersion",
        }
    }

    /// A human-readable description of the failure.
    pub fn message(&self) -> (r: &'static str)
        ensures
            *self == BoardError::DeviceNotDetected ==> r@ == "Device not detected."@,
            *self == BoardError::SoftVersion ==> r@ == "Firmware/software version mismatch."@,
    {
        match self {
            BoardError::DeviceNotDetected => "Device not detected.",
            BoardError::SoftVersion => "Firmware/software version mismatch.",
        }
    }
}

} // verus!

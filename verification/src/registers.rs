use vstd::prelude::*;

verus! {

/// Value the product-ID register must hold for this board.
pub const EXPECTED_PRODUCT_ID: u8 = 0xDF;

/// Value the vendor-ID register must hold for compatible firmware.
pub const EXPECTED_VENDOR_ID: u8 = 0x10;

/// Factory-default bus address of the board.
pub const DEFAULT_ADDRESS: u8 = 0x10;

/// Size in bytes of the board's register space: the last ADC value register
/// starts at offset 0x15 and spans two bytes.
pub const REGISTER_SPACE: usize = 0x17;

/// The board's addressable registers. Identity registers are read at
/// construction; PWM and ADC registers carry the control operations. The
/// frequency, duty and ADC value registers each span two bytes.
#[derive(Clone, Copy, Debug, PartialEq, Eq, Structural)]
pub enum Register {
    SlaveAddr,
    Pid,
    Vid,
    PwmCtrl,
    PwmFreq,
    PwmDuty0,
    PwmDuty1,
    PwmDuty2,
    PwmDuty3,
    AdcCtrl,
    AdcCh0,
    AdcCh1,
    AdcCh2,
    AdcCh3,
}

impl Register {
    /// Byte offset of this register in the device's address space.
    pub open spec fn spec_offset(self) -> u8 {
        match self {
            Register::SlaveAddr => 0x00,
            Register::Pid => 0x01,
            Register::Vid => 0x02,
            Register::PwmCtrl => 0x03,
            Register::PwmFreq => 0x04,
            Register::PwmDuty0 => 0x06,
            Register::PwmDuty1 => 0x08,
            Register::PwmDuty2 => 0x0A,
            Register::PwmDuty3 => 0x0C,
            Register::AdcCtrl => 0x0E,
            Register::AdcCh0 => 0x0F,
            Register::AdcCh1 => 0x11,
            Register::AdcCh2 => 0x13,
            Register::AdcCh3 => 0x15,
        }
    }

    /// Byte offset of this register in the device's address space.
    #[verifier::when_used_as_spec(spec_offset)]
    pub fn offset(self) -> (r: u8)
        ensures
            r == self.spec_offset(),
    {
        match self {
            Register::SlaveAddr => 0x00,
            Register::Pid => 0x01,
            Register::Vid => 0x02,
            Register::PwmCtrl => 0x03,
            Register::PwmFreq => 0x04,
            Register::PwmDuty0 => 0x06,
            Register::PwmDuty1 => 0x08,
            Register::PwmDuty2 => 0x0A,
            Register::PwmDuty3 => 0x0C,
            Register::AdcCtrl => 0x0E,
            Register::AdcCh0 => 0x0F,
            Register::AdcCh1 => 0x11,
            Register::AdcCh2 => 0x13,
            Register::AdcCh3 => 0x15,
        }
    }
}

} // verus!

use vstd::prelude::*;

use crate::registers::Register;

verus! {

/// Identifier of one of the board's four channels. Each channel selects an
/// independent PWM output and an independent ADC input.
#[derive(Clone, Copy, Debug, PartialEq, Eq, Structural)]
pub enum Channel {
    Ch0,
    Ch1,
    Ch2,
    Ch3,
}

impl Channel {
    /// All four channel identifiers, each exactly once, in their fixed order.
    pub fn all() -> (r: [Channel; 4])
        ensures
            r@ == seq![Channel::Ch0, Channel::Ch1, Channel::Ch2, Channel::Ch3],
            forall|i: int, j: int| 0 <= i < 4 && 0 <= j < 4 && i != j ==> r@[i] != r@[j],
    {
        [Channel::Ch0, Channel::Ch1, Channel::Ch2, Channel::Ch3]
    }

    /// The duty register belonging to this channel.
    pub open spec fn spec_duty_register(self) -> Register {
        match self {
            Channel::Ch0 => Register::PwmDuty0,
            Channel::Ch1 => Register::PwmDuty1,
            Channel::Ch2 => Register::PwmDuty2,
            Channel::Ch3 => Register::PwmDuty3,
        }
    }

    /// The duty register belonging to this channel.
    #[verifier::when_used_as_spec(spec_duty_register)]
    pub fn duty_register(self) -> (r: Register)
        ensures
            r == self.spec_duty_register(),
    {
        match self {
            Channel::Ch0 => Register::PwmDuty0,
            Channel::Ch1 => Register::PwmDuty1,
            Channel::Ch2 => Register::PwmDuty2,
            Channel::Ch3 => Register::PwmDuty3,
        }
    }

    /// The ADC value register belonging to this channel.
    pub open spec fn spec_adc_register(self) -> Register {
        match self {
            Channel::Ch0 => Register::AdcCh0,
            Channel::Ch1 => Register::AdcCh1,
            Channel::Ch2 => Register::AdcCh2,
            Channel::Ch3 => Register::AdcCh3,
        }
    }

    /// The ADC value register belonging to this channel.
    #[verifier::when_used_as_spec(spec_adc_register)]
    pub fn adc_register(self) -> (r: Register)
        ensures
            r == self.spec_adc_register(),
    {
        match self {
            Channel::Ch0 => Register::AdcCh0,
            Channel::Ch1 => Register::AdcCh1,
            Channel::Ch2 => Register::AdcCh2,
            Channel::Ch3 => Register::AdcCh3,
        }
    }
}

} // verus!

use vstd::prelude::*;

use crate::channel::Channel;
use crate::error::BoardError;
use crate::registers::{Register, EXPECTED_PRODUCT_ID, EXPECTED_VENDOR_ID};

verus! {

/// One block write on the bus: the destination register offset and the bytes
/// that go to it. Every control operation of the driver is exactly one such
/// write; the transport layer performs it without looking inside.
pub struct RegWrite {
    pub reg: u8,
    pub bytes: Vec<u8>,
}

impl View for RegWrite {
    type V = (u8, Seq<u8>);

    open spec fn view(&self) -> (u8, Seq<u8>) {
        (self.reg, self.bytes@)
    }
}

/// Control-register byte for an enable flag: 0x01 switches a subsystem on,
/// 0x00 switches it off.
pub open spec fn spec_control_byte(enable: bool) -> u8 {
    if enable {
        0x01
    } else {
        0x00
    }
}

/// The write that switches the PWM subsystem on or off.
pub fn pwm_control_write(enable: bool) -> (w: RegWrite)
    ensures
        w@.0 == Register::PwmCtrl.offset(),
        w@.1 == seq![spec_control_byte(enable)],
{
    let mut bytes: Vec<u8> = Vec::new();
    if enable {
        bytes.push(0x01);
    } else {
        bytes.push(0x00);
    }
    let w = RegWrite { reg: Register::PwmCtrl.offset(), bytes };
    proof {
        assert(w@.1 =~= seq![spec_control_byte(enable)]);
    }
    w
}

/// The write that switches the ADC subsystem on or off.
pub fn adc_control_write(enable: bool) -> (w: RegWrite)
    ensures
        w@.0 == Register::AdcCtrl.offset(),
        w@.1 == seq![spec_control_byte(enable)],
{
    let mut bytes: Vec<u8> = Vec::new();
    if enable {
        bytes.push(0x01);
    } else {
        bytes.push(0x00);
    }
    let w = RegWrite { reg: Register::AdcCtrl.offset(), bytes };
    proof {
        assert(w@.1 =~= seq![spec_control_byte(enable)]);
    }
    w
}

/// Wire encoding of a duty cycle that has already been scaled to hundredths,
/// i.e. `floor(duty * 100)` for a duty in `[0.0, 1.0]`. The first byte is the
/// scaled value; the second is `(scaled * 10) % 10`, which is 0 for every
/// integer input. The board's reference protocol expects exactly this pair,
/// degenerate second byte included, so it is reproduced rather than repaired.
pub fn encode_pwm_duty(scaled: u16) -> (r: [u8; 2])
    requires
        scaled <= 100,
    ensures
        r@ == seq![scaled as u8, 0u8],
{
    let b0 = scaled as u8;
    let b1 = ((scaled * 10) % 10) as u8;
    proof {
        assert((scaled * 10) % 10 == 0) by (nonlinear_arith);
    }
    [b0, b1]
}

/// Wire encoding of a board-wide PWM frequency in `[1, 1000]` Hz: the
/// big-endian bytes of the 16-bit value.
pub fn encode_pwm_freq(freq: u16) -> (r: [u8; 2])
    requires
        1 <= freq <= 1000,
    ensures
        r@ == seq![(freq as int / 256) as u8, (freq as int % 256) as u8],
        freq == r@[0] * 256 + r@[1],
{
    let b0 = (freq / 256) as u8;
    let b1 = (freq % 256) as u8;
    [b0, b1]
}

/// Big-endian decoding of a two-byte ADC sample. The board produces samples
/// in `[0, 1023]`, i.e. a high byte of at most 0x03.
pub fn decode_adc(b0: u8, b1: u8) -> (r: u16)
    ensures
        r == b0 * 256 + b1,
        b0 <= 0x03 ==> r <= 1023,
{
    (b0 as u16) * 256 + (b1 as u16)
}

/// The construction-time identity gate. Returns `Ok` exactly when both
/// identity bytes match the board's constants; a product-ID mismatch is
/// reported before the vendor ID is even considered.
pub fn check_identity(pid: u8, vid: u8) -> (r: Result<(), BoardError>)
    ensures
        r is Ok <==> (pid == EXPECTED_PRODUCT_ID && vid == EXPECTED_VENDOR_ID),
        r == Err::<(), BoardError>(BoardError::DeviceNotDetected) <==> pid != EXPECTED_PRODUCT_ID,
        r == Err::<(), BoardError>(BoardError::SoftVersion) <==> (pid == EXPECTED_PRODUCT_ID
            && vid != EXPECTED_VENDOR_ID),
{
    if pid != EXPECTED_PRODUCT_ID {
        return Err(BoardError::DeviceNotDetected);
    }
    if vid != EXPECTED_VENDOR_ID {
        return Err(BoardError::SoftVersion);
    }
    Ok(())
}

/// The write that sets one channel's duty register to an already-scaled duty
/// value (hundredths of full scale).
pub fn duty_write(channel: Channel, scaled: u16) -> (w: RegWrite)
    requires
        scaled <= 100,
    ensures
        w@.0 == channel.duty_register().offset(),
        w@.1 == seq![scaled as u8, 0u8],
{
    let enc = encode_pwm_duty(scaled);
    let mut bytes: Vec<u8> = Vec::new();
    bytes.push(enc[0]);
    bytes.push(enc[1]);
    let w = RegWrite { reg: channel.duty_register().offset(), bytes };
    proof {
        assert(w@.1 =~= seq![scaled as u8, 0u8]);
    }
    w
}

/// The write that sets the board-wide PWM frequency.
pub fn freq_write(freq: u16) -> (w: RegWrite)
    requires
        1 <= freq <= 1000,
    ensures
        w@.0 == Register::PwmFreq.offset(),
        w@.1 == seq![(freq as int / 256) as u8, (freq as int % 256) as u8],
        freq == w@.1[0] * 256 + w@.1[1],
{
    let enc = encode_pwm_freq(freq);
    let mut bytes: Vec<u8> = Vec::new();
    bytes.push(enc[0]);
    bytes.push(enc[1]);
    let w = RegWrite { reg: Register::PwmFreq.offset(), bytes };
    proof {
        assert(w@.1 =~= seq![(freq as int / 256) as u8, (freq as int % 256) as u8]);
    }
    w
}

/// The register writes of the safe-state reset, in order: silence the PWM
/// output first, then rewrite every channel's duty register to the zero-duty
/// pair, then disable ADC sampling. The order matters: no intermediate state
/// may produce a live nonzero output.
pub open spec fn spec_reset_writes() -> Seq<(u8, Seq<u8>)> {
    seq![
        (Register::PwmCtrl.spec_offset(), seq![0u8]),
        (Register::PwmDuty0.spec_offset(), seq![0u8, 0u8]),
        (Register::PwmDuty1.spec_offset(), seq![0u8, 0u8]),
        (Register::PwmDuty2.spec_offset(), seq![0u8, 0u8]),
        (Register::PwmDuty3.spec_offset(), seq![0u8, 0u8]),
        (Register::AdcCtrl.spec_offset(), seq![0u8]),
    ]
}

/// The complete write sequence of a reset, exactly as `spec_reset_writes`
/// lays it out. Both the reset operation and the session teardown drive the
/// bus with this one sequence.
pub fn reset_writes() -> (ws: Vec<RegWrite>)
    ensures
        ws@.len() == spec_reset_writes().len(),
        forall|i: int| 0 <= i < ws@.len() ==> #[trigger] ws@[i]@ == spec_reset_writes()[i],
{
    let mut ws: Vec<RegWrite> = Vec::new();
    ws.push(pwm_control_write(false));
    let channels = Channel::all();
    let mut i: usize = 0;
    while i < 4
        invariant
            i <= 4,
            ws@.len() == i + 1,
            channels@ == seq![Channel::Ch0, Channel::Ch1, Channel::Ch2, Channel::Ch3],
            forall|j: int| 0 <= j <= i ==> #[trigger] ws@[j]@ == spec_reset_writes()[j],
        decreases 4 - i,
    {
        ws.push(duty_write(channels[i], 0));
        i += 1;
    }
    ws.push(adc_control_write(false));
    proof {
        assert(spec_reset_writes().len() == 6);
        assert(ws@[5]@ == spec_reset_writes()[5]);
        assert forall|j: int| 0 <= j < ws@.len() implies #[trigger] ws@[j]@
            == spec_reset_writes()[j] by {
            if j < 5 {
                assert(ws@[j]@ == spec_reset_writes()[j]);
            }
        }
    }
    ws
}

} // verus!

use dfr_io_hat::protocol::{
    adc_control_write, check_identity, decode_adc, duty_write, encode_pwm_duty, encode_pwm_freq,
    freq_write, pwm_control_write, reset_writes,
};
use dfr_io_hat::{BoardError, Channel, Register};

#[test]
fn duty_encoding_examples() {
    // floor(duty * 100), exactly as the driver scales a duty cycle.
    let scaled_zero = (0.0f32 * 1e2) as u16;
    let scaled_half = (0.5f32 * 1e2) as u16;
    let scaled_full = (1.0f32 * 1e2) as u16;
    assert_eq!(encode_pwm_duty(scaled_zero), [0, 0]);
    assert_eq!(encode_pwm_duty(scaled_half), [50, 0]);
    assert_eq!(encode_pwm_duty(scaled_full), [100, 0]);
}

#[test]
fn duty_encoding_second_byte_is_zero() {
    let mut scaled: u16 = 0;
    while scaled <= 100 {
        let bytes = encode_pwm_duty(scaled);
        assert_eq!(bytes[0] as u16, scaled);
        assert_eq!(bytes[1], 0);
        scaled += 1;
    }
}

#[test]
fn freq_encoding_examples() {
    assert_eq!(encode_pwm_freq(2), [0x00, 0x02]);
    assert_eq!(encode_pwm_freq(1000), [0x03, 0xE8]);
    assert_eq!(encode_pwm_freq(1), [0x00, 0x01]);
    assert_eq!(encode_pwm_freq(256), [0x01, 0x00]);
}

#[test]
fn freq_encoding_is_big_endian_for_all_valid_inputs() {
    let mut freq: u16 = 1;
    while freq <= 1000 {
        let bytes = encode_pwm_freq(freq);
        assert_eq!((bytes[0] as u16) * 256 + bytes[1] as u16, freq);
        freq += 1;
    }
}

#[test]
fn adc_decoding_examples() {
    assert_eq!(decode_adc(0x03, 0xFF), 1023);
    assert_eq!(decode_adc(0x00, 0x00), 0);
    assert_eq!(decode_adc(0x01, 0x02), 258);
}

#[test]
fn identity_check_accepts_the_expected_pair() {
    assert!(check_identity(0xDF, 0x10).is_ok());
}

#[test]
fn identity_check_reports_wrong_product_id() {
    assert_eq!(check_identity(0x00, 0x10), Err(BoardError::DeviceNotDetected));
    assert_eq!(check_identity(0xDE, 0x10), Err(BoardError::DeviceNotDetected));
    // A product-ID mismatch wins even when the vendor ID is wrong too.
    assert_eq!(check_identity(0x12, 0x34), Err(BoardError::DeviceNotDetected));
}

#[test]
fn identity_check_reports_wrong_vendor_id() {
    assert_eq!(check_identity(0xDF, 0x00), Err(BoardError::SoftVersion));
    assert_eq!(check_identity(0xDF, 0x11), Err(BoardError::SoftVersion));
}

#[test]
fn control_writes_target_the_control_registers() {
    let on = pwm_control_write(true);
    assert_eq!(on.reg, 0x03);
    assert_eq!(on.bytes, vec![0x01]);
    let off = pwm_control_write(false);
    assert_eq!(off.reg, 0x03);
    assert_eq!(off.bytes, vec![0x00]);

    let adc_on = adc_control_write(true);
    assert_eq!(adc_on.reg, 0x0E);
    assert_eq!(adc_on.bytes, vec![0x01]);
    let adc_off = adc_control_write(false);
    assert_eq!(adc_off.reg, 0x0E);
    assert_eq!(adc_off.bytes, vec![0x00]);
}

#[test]
fn duty_writes_select_the_channel_register() {
    let expected = [
        (Channel::Ch0, 0x06u8),
        (Channel::Ch1, 0x08u8),
        (Channel::Ch2, 0x0Au8),
        (Channel::Ch3, 0x0Cu8),
    ];
    for (ch, reg) in expected {
        let w = duty_write(ch, 75);
        assert_eq!(w.reg, reg);
        assert_eq!(w.bytes, vec![75, 0]);
    }
}

#[test]
fn freq_write_targets_the_frequency_register() {
    let w = freq_write(500);
    assert_eq!(w.reg, 0x04);
    assert_eq!(w.bytes, vec![0x01, 0xF4]);
}

#[test]
fn reset_write_sequence_is_exact() {
    let ws = reset_writes();
    assert_eq!(ws.len(), 6);
    assert_eq!(ws[0].reg, 0x03);
    assert_eq!(ws[0].bytes, vec![0x00]);
    for (i, reg) in [(1usize, 0x06u8), (2, 0x08), (3, 0x0A), (4, 0x0C)] {
        assert_eq!(ws[i].reg, reg);
        assert_eq!(ws[i].bytes, vec![0x00, 0x00]);
    }
    assert_eq!(ws[5].reg, 0x0E);
    assert_eq!(ws[5].bytes, vec![0x00]);
}

#[test]
fn error_texts() {
    assert_eq!(BoardError::DeviceNotDetected.name(), "DeviceNotDetected");
    assert_eq!(BoardError::SoftVersion.name(), "SoftVersion");
    assert_eq!(BoardError::DeviceNotDetected.message(), "Device not detected.");
    assert_eq!(
        BoardError::SoftVersion.message(),
        "Firmware/software version mismatch."
    );
}

#[test]
fn register_offsets_match_the_board_map() {
    let expected = [
        (Register::SlaveAddr, 0x00u8),
        (Register::Pid, 0x01),
        (Register::Vid, 0x02),
        (Register::PwmCtrl, 0x03),
        (Register::PwmFreq, 0x04),
        (Register::PwmDuty0, 0x06),
        (Register::PwmDuty1, 0x08),
        (Register::PwmDuty2, 0x0A),
        (Register::PwmDuty3, 0x0C),
        (Register::AdcCtrl, 0x0E),
        (Register::AdcCh0, 0x0F),
        (Register::AdcCh1, 0x11),
        (Register::AdcCh2, 0x13),
        (Register::AdcCh3, 0x15),
    ];
    for (reg, offset) in expected {
        assert_eq!(reg.offset(), offset);
    }
}

use dfr_io_hat::channel::Channel;
use dfr_io_hat::regfile::apply_writes;
use dfr_io_hat::protocol::reset_writes;
use dfr_io_hat::registers::REGISTER_SPACE;

#[test]
fn all_channels_exactly_once_in_order() {
    let chans = Channel::all();
    assert_eq!(chans.len(), 4);
    assert_eq!(chans[0], Channel::Ch0);
    assert_eq!(chans[1], Channel::Ch1);
    assert_eq!(chans[2], Channel::Ch2);
    assert_eq!(chans[3], Channel::Ch3);
    for i in 0..4 {
        for j in 0..4 {
            if i != j {
                assert_ne!(chans[i], chans[j]);
            }
        }
    }
}

#[test]
fn all_channels_order_is_reproducible() {
    assert_eq!(Channel::all(), Channel::all());
}

#[test]
fn reset_quiesces_a_dirty_register_file() {
    // A register file standing in for the board, with every byte dirty.
    let mut mem: Vec<u8> = vec![0xAA; REGISTER_SPACE];
    let ws = reset_writes();
    apply_writes(&mut mem, &ws);

    // Both control registers read back disabled.
    assert_eq!(mem[0x03], 0x00);
    assert_eq!(mem[0x0E], 0x00);
    // Every channel's duty register holds the zero-duty pair.
    for ch in Channel::all() {
        let off = ch.duty_register().offset() as usize;
        assert_eq!(mem[off], 0x00);
        assert_eq!(mem[off + 1], 0x00);
    }
    // Nothing outside the reset's targets was touched.
    for idx in [0x00usize, 0x01, 0x02, 0x05, 0x0F, 0x10, 0x15, 0x16] {
        assert_eq!(mem[idx], 0xAA);
    }
}

#[test]
fn channel_registers_are_distinct() {
    let chans = Channel::all();
    for i in 0..4 {
        for j in 0..4 {
            if i != j {
                assert_ne!(
                    chans[i].duty_register().offset(),
                    chans[j].duty_register().offset()
                );
                assert_ne!(
                    chans[i].adc_register().offset(),
                    chans[j].adc_register().offset()
                );
            }
        }
    }
}

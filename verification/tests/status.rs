use serial_tester::lines::Input;
use serial_tester::status::{read_pin, StatusBits};

const BITS: StatusBits = StatusBits {
    clear_to_send: 0x020,
    data_set_ready: 0x100,
    ring_indicator: 0x080,
    carrier_detect: 0x040,
};

#[test]
fn read_pin_sees_a_set_bit() {
    assert!(read_pin(0x020, 0x020));
    assert!(read_pin(0x126, 0x020));
    assert!(read_pin(-1, 0x100));
}

#[test]
fn read_pin_sees_a_clear_bit() {
    assert!(!read_pin(0, 0x020));
    assert!(!read_pin(0x106, 0x020));
    assert!(!read_pin(0x020, 0x100));
}

#[test]
fn read_pin_wants_every_bit_of_the_mask() {
    assert!(read_pin(0x120, 0x120));
    assert!(!read_pin(0x100, 0x120));
    assert!(!read_pin(0x020, 0x120));
    assert!(read_pin(0x020, 0));
}

#[test]
fn status_bits_pick_the_mask_of_the_line() {
    assert_eq!(BITS.mask(Input::ClearToSend), 0x020);
    assert_eq!(BITS.mask(Input::DataSetReady), 0x100);
    assert_eq!(BITS.mask(Input::RingIndicator), 0x080);
    assert_eq!(BITS.mask(Input::CarrierDetect), 0x040);
}

#[test]
fn status_bits_read_each_line_by_itself() {
    let status = 0x020 | 0x040 | 0x004;
    assert!(BITS.read(status, Input::ClearToSend));
    assert!(BITS.read(status, Input::CarrierDetect));
    assert!(!BITS.read(status, Input::DataSetReady));
    assert!(!BITS.read(status, Input::RingIndicator));
}

#[test]
fn status_is_read_afresh_each_time() {
    assert!(BITS.read(0x100, Input::DataSetReady));
    assert!(!BITS.read(0x000, Input::DataSetReady));
    assert!(BITS.read(0x100, Input::DataSetReady));
}

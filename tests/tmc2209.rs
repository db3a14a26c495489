use stepper_rs::motion_controller::MotionController;
use stepper_rs::registers::{EN_SPREADCYCLE, GCONF};
use stepper_rs::tmc2209::Tmc2209;

fn get_mock_tmc() -> Tmc2209 {
    Tmc2209::new::<()>((1, 1, 1))
        .set_chip(Some(()))
        .build()
        .unwrap()
        .0
}

#[test]
fn set_bit_u8() {
    let pre_bits: u8 = 0xB4;
    let mod_bits: u8 = 0x02;
    let post_bits: u8 = 0xB6;
    assert_eq!(Tmc2209::set_bit(pre_bits, mod_bits), post_bits)
}

#[test]
fn set_bit_u16() {
    let pre_bits: u16 = 0b0110_0100_1001_0011;
    let mod_bits: u16 = 0b0000_0010_0000_0000;
    let post_bits: u16 = 0b0110_0110_1001_0011;
    assert_eq!(Tmc2209::set_bit(pre_bits, mod_bits), post_bits)
}

#[test]
fn set_bit_u32() {
    let pre_bits: u32 = 0x541AED38;
    let mod_bits: u32 = 0x800000;
    let post_bits: u32 = 0x549AED38;
    assert_eq!(Tmc2209::set_bit(pre_bits, mod_bits), post_bits)
}

#[test]
fn clear_bit_u8() {
    let pre_bits: u8 = 0x67;
    let mod_bits: u8 = 0x20;
    let post_bits: u8 = 0x47;
    assert_eq!(Tmc2209::clear_bit(pre_bits, mod_bits), post_bits)
}

#[test]
fn clear_bit_u16() {
    let pre_bits: u16 = 0xE9C8;
    let mod_bits: u16 = 0x80;
    let post_bits: u16 = 0xE948;
    assert_eq!(Tmc2209::clear_bit(pre_bits, mod_bits), post_bits)
}

#[test]
fn clear_bit_u32() {
    let pre_bits: u32 = 0xCD02F9E2;
    let mod_bits: u32 = 0x02;
    let post_bits: u32 = 0xCD02F9E0;
    assert_eq!(Tmc2209::clear_bit(pre_bits, mod_bits), post_bits)
}

#[test]
fn crc_parity_test_read() {
    let the_tmc = get_mock_tmc();
    assert_eq!(the_tmc.calculate_crc(&mut vec![0x55, 0, 0, 0]), 207)
}

#[test]
fn crc_parity_test_write() {
    let the_tmc = get_mock_tmc();
    assert_eq!(
        the_tmc.calculate_crc(&mut vec![85, 15, 0, 0, 13, 0, 0, 0]),
        173
    )
}

#[test]
fn test_gstat() {
    let the_tmc = get_mock_tmc();
    assert_eq!(
        the_tmc.get_read_bytes(Tmc2209::set_bit(GCONF as u8, EN_SPREADCYCLE as u8)),
        vec![0x55, 0x00, 0x04, 47]
    )
}

#[test]
fn get_drv_status_vec() {}

#[test]
fn get_steps_per_rev() {
    let mut the_tmc = get_mock_tmc();

    assert_eq!(
        the_tmc.get_steps_per_rev(0b0101_0101_0101_0101_0101_0101_0101_0101),
        0b1000
    )
}

#[test]
fn get_steps_per_rev2() {
    let mut the_tmc = get_mock_tmc();

    assert_eq!(
        the_tmc.get_steps_per_rev(0b0000_0000_0000_0000_0000_0000_0000_0000),
        0b100000000
    )
}

#[test]
fn new() {
    let controller = MotionController::new("test_stepper".to_owned(), get_mock_tmc());
    assert_eq!(controller.name(), "test_stepper");
}

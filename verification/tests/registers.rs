use stm32f2_hal::registers::{is_set, is_set16, update, update16};

#[test]
fn update_writes_the_masked_bits_only() {
    let mut register: u32 = 0xFFFF_0000;
    update(&mut register, 0x0000_00A5, 0x0000_00FF);
    assert_eq!(register, 0xFFFF_00A5);
    update(&mut register, 0, 0xF000_0000);
    assert_eq!(register, 0x0FFF_00A5);
    // bits outside the mask do not get through
    update(&mut register, 0xFFFF_FFFF, 0x0000_0F00);
    assert_eq!(register, 0x0FFF_0FA5);
}

#[test]
fn update16_writes_the_masked_bits_only() {
    let mut register: u16 = 0xF00F;
    update16(&mut register, 0x0120, 0x0FF0);
    assert_eq!(register, 0xF12F);
    update16(&mut register, 0xFFFF, 0x0001);
    assert_eq!(register, 0xF12F);
    update16(&mut register, 0x0000, 0x000F);
    assert_eq!(register, 0xF120);
}

#[test]
fn update_twice_is_update_once() {
    let mut register: u32 = 0x1234_5678;
    update(&mut register, 0x00AB_0000, 0x00FF_0000);
    let once = register;
    update(&mut register, 0x00AB_0000, 0x00FF_0000);
    assert_eq!(register, once);
    assert_eq!(once, 0x12AB_5678);
}

#[test]
fn is_set_asks_for_every_bit_of_the_mask() {
    assert!(is_set(0x0000_0300, 0x0000_0300));
    assert!(!is_set(0x0000_0100, 0x0000_0300));
    assert!(is_set(0xFFFF_FFFF, 0));
    assert!(is_set16(0x8001, 0x8000));
    assert!(!is_set16(0x7FFF, 0x8000));
}

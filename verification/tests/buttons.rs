use aoko::controller::{
    key_mask, Button, KEY_A, KEY_B, KEY_BACK_LEFT, KEY_BACK_RIGHT, KEY_DPAD_DOWN, KEY_DPAD_LEFT,
    KEY_DPAD_RIGHT, KEY_DPAD_UP, KEY_LEFT, KEY_LEFT_STICK, KEY_MINUS, KEY_PLUS, KEY_RIGHT,
    KEY_RIGHT_STICK, KEY_X, KEY_Y,
};

#[test]
fn every_mapped_button_has_its_wire_bit() {
    assert_eq!(key_mask(Button::East), KEY_A);
    assert_eq!(key_mask(Button::South), KEY_B);
    assert_eq!(key_mask(Button::North), KEY_Y);
    assert_eq!(key_mask(Button::West), KEY_X);
    assert_eq!(key_mask(Button::LeftThumb), KEY_LEFT_STICK);
    assert_eq!(key_mask(Button::RightThumb), KEY_RIGHT_STICK);
    assert_eq!(key_mask(Button::LeftTrigger), KEY_LEFT);
    assert_eq!(key_mask(Button::RightTrigger), KEY_RIGHT);
    assert_eq!(key_mask(Button::LeftTrigger2), KEY_BACK_LEFT);
    assert_eq!(key_mask(Button::RightTrigger2), KEY_BACK_RIGHT);
    assert_eq!(key_mask(Button::Start), KEY_PLUS);
    assert_eq!(key_mask(Button::Select), KEY_MINUS);
    assert_eq!(key_mask(Button::DPadLeft), KEY_DPAD_LEFT);
    assert_eq!(key_mask(Button::DPadUp), KEY_DPAD_UP);
    assert_eq!(key_mask(Button::DPadRight), KEY_DPAD_RIGHT);
    assert_eq!(key_mask(Button::DPadDown), KEY_DPAD_DOWN);
}

#[test]
fn unmapped_buttons_contribute_no_bit() {
    assert_eq!(key_mask(Button::Other), 0);
}

#[test]
fn wire_bits_are_the_sixteen_low_mask_bits() {
    let all = [
        KEY_A, KEY_B, KEY_Y, KEY_X, KEY_LEFT_STICK, KEY_RIGHT_STICK, KEY_LEFT, KEY_RIGHT,
        KEY_BACK_LEFT, KEY_BACK_RIGHT, KEY_PLUS, KEY_MINUS, KEY_DPAD_LEFT, KEY_DPAD_UP,
        KEY_DPAD_RIGHT, KEY_DPAD_DOWN,
    ];
    let mut seen: u64 = 0;
    for (i, &bit) in all.iter().enumerate() {
        assert_eq!(bit.count_ones(), 1);
        assert!(bit < 1 << 16, "bit {i} outside the 16-bit button range");
        assert_eq!(seen & bit, 0, "bit {i} duplicated");
        seen |= bit;
    }
    assert_eq!(seen, 0xffff);
}

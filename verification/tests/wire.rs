use aoko::controller::{Controller, ControllerType, KEY_A, KEY_PLUS};
use aoko::frame::{encode_frame, FRAME_LEN, MAGIC};
use aoko::gamepads::Vec2;

fn record(frame: &[u8], slot: usize) -> &[u8] {
    &frame[4 + 26 * slot..4 + 26 * (slot + 1)]
}

#[test]
fn empty_table_encodes_to_zeroed_frame_after_header() {
    let buf = encode_frame(&[None, None, None, None]);
    assert_eq!(buf.len(), FRAME_LEN);
    assert_eq!(&buf[0..2], &[0x76, 0x32]);
    assert_eq!(&buf[2..4], &[0, 0]);
    assert!(buf[4..].iter().all(|&b| b == 0));
}

#[test]
fn magic_constant_is_little_endian_0x3276() {
    assert_eq!(MAGIC, 0x3276);
    let buf = encode_frame(&[None, None, None, None]);
    assert_eq!(u16::from_le_bytes([buf[0], buf[1]]), MAGIC);
}

#[test]
fn active_count_matches_occupied_slots() {
    let pad = Controller {
        type_: ControllerType::ProController,
        keys: 0,
        joy_left: Vec2 { x: 0, y: 0 },
        joy_right: Vec2 { x: 0, y: 0 },
    };
    let buf = encode_frame(&[Some(pad), None, Some(pad), None]);
    assert_eq!(u16::from_le_bytes([buf[2], buf[3]]), 2);
    let buf = encode_frame(&[Some(pad), Some(pad), Some(pad), Some(pad)]);
    assert_eq!(u16::from_le_bytes([buf[2], buf[3]]), 4);
}

#[test]
fn empty_slot_record_is_all_zero_even_between_occupied_ones() {
    let pad = Controller {
        type_: ControllerType::ProController,
        keys: KEY_A,
        joy_left: Vec2 { x: -1, y: 7 },
        joy_right: Vec2 { x: 3, y: -9 },
    };
    let buf = encode_frame(&[Some(pad), None, Some(pad), None]);
    assert!(record(&buf, 1).iter().all(|&b| b == 0));
    assert!(record(&buf, 3).iter().all(|&b| b == 0));
    assert!(record(&buf, 0).iter().any(|&b| b != 0));
}

#[test]
fn occupied_record_layout_is_bit_exact() {
    let pad = Controller {
        type_: ControllerType::ProController,
        keys: KEY_A | KEY_PLUS,
        joy_left: Vec2 { x: 16_383, y: -32_767 },
        joy_right: Vec2 { x: 1, y: -1 },
    };
    let buf = encode_frame(&[None, Some(pad), None, None]);
    let r = record(&buf, 1);
    assert_eq!(&r[0..2], &1u16.to_le_bytes());
    assert_eq!(&r[2..10], &(KEY_A | KEY_PLUS).to_le_bytes());
    assert_eq!(&r[10..14], &16_383i32.to_le_bytes());
    assert_eq!(&r[14..18], &(-32_767i32).to_le_bytes());
    assert_eq!(&r[18..22], &1i32.to_le_bytes());
    assert_eq!(&r[22..26], &(-1i32).to_le_bytes());
}

#[test]
fn controller_type_tags() {
    assert_eq!(ControllerType::ProController.tag(), 1);
    assert_eq!(ControllerType::JoyConL.tag(), 2);
    assert_eq!(ControllerType::JoyConR.tag(), 3);
}

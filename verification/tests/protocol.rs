use aoko::bridge::{
    advance_link, Axis, Bridge, InputEvent, LinkPhase, NetCommand, NetEvent, Phase,
};
use aoko::controller::{Button, KEY_A, KEY_B};
use aoko::gamepads::{BridgeError, Vec2, SCALE};

const MULT: i64 = 32_767 * SCALE;

fn bridge() -> Bridge {
    Bridge::new(Vec2 { x: MULT, y: MULT }, Vec2 { x: MULT, y: MULT })
}

#[test]
fn connect_fills_slot_with_fresh_pro_controller() {
    let mut b = bridge();
    b.handle_event(InputEvent::Connected(9)).unwrap();
    let pad = b.pads[0].unwrap();
    assert_eq!(pad.keys, 0);
    assert_eq!(pad.type_.tag(), 1);
    assert_eq!(pad.joy_left, Vec2 { x: 0, y: 0 });
    assert_eq!(pad.joy_right, Vec2 { x: 0, y: 0 });
}

#[test]
fn fifth_connect_is_refused_with_slot_exhausted() {
    let mut b = bridge();
    for id in 0..4u64 {
        b.handle_event(InputEvent::Connected(id)).unwrap();
    }
    assert_eq!(
        b.handle_event(InputEvent::Connected(4)),
        Err(BridgeError::SlotExhausted)
    );
}

#[test]
fn events_for_unknown_devices_are_refused() {
    let mut b = bridge();
    assert_eq!(
        b.handle_event(InputEvent::AxisChanged(3, Axis::LeftStickX, 1000)),
        Err(BridgeError::UnknownDevice)
    );
    assert_eq!(
        b.handle_event(InputEvent::ButtonPressed(3, Button::South)),
        Err(BridgeError::UnknownDevice)
    );
    assert_eq!(
        b.handle_event(InputEvent::Disconnected(3)),
        Err(BridgeError::UnknownDevice)
    );
}

#[test]
fn buttons_set_and_clear_mask_bits() {
    let mut b = bridge();
    b.handle_event(InputEvent::Connected(1)).unwrap();
    b.handle_event(InputEvent::ButtonPressed(1, Button::East)).unwrap();
    b.handle_event(InputEvent::ButtonPressed(1, Button::South)).unwrap();
    assert_eq!(b.pads[0].unwrap().keys, KEY_A | KEY_B);
    b.handle_event(InputEvent::ButtonReleased(1, Button::East)).unwrap();
    assert_eq!(b.pads[0].unwrap().keys, KEY_B);
    // an unmapped button contributes no bit
    b.handle_event(InputEvent::ButtonPressed(1, Button::Other)).unwrap();
    assert_eq!(b.pads[0].unwrap().keys, KEY_B);
}

#[test]
fn axis_sample_keeps_the_other_coordinate() {
    let mut b = bridge();
    b.handle_event(InputEvent::Connected(1)).unwrap();
    b.handle_event(InputEvent::AxisChanged(1, Axis::LeftStickX, 500_000)).unwrap();
    assert_eq!(b.pads[0].unwrap().joy_left, Vec2 { x: 16_383, y: 0 });
    b.handle_event(InputEvent::AxisChanged(1, Axis::LeftStickY, 250_000)).unwrap();
    // x was retained while y landed
    assert_eq!(b.pads[0].unwrap().joy_left, Vec2 { x: 16_383, y: 8_191 });
    // the right stick is untouched
    assert_eq!(b.pads[0].unwrap().joy_right, Vec2 { x: 0, y: 0 });
}

#[test]
fn corner_readings_are_clamped_before_scaling() {
    let mut b = bridge();
    b.handle_event(InputEvent::Connected(1)).unwrap();
    b.handle_event(InputEvent::AxisChanged(1, Axis::RightStickX, 900_000)).unwrap();
    b.handle_event(InputEvent::AxisChanged(1, Axis::RightStickY, 900_000)).unwrap();
    // clamped to ~(0.7071, 0.7071), then scaled by 32767 and truncated
    assert_eq!(b.pads[0].unwrap().joy_right, Vec2 { x: 23_169, y: 23_169 });
}

#[test]
fn inverted_axis_flips_the_output_sign() {
    let mut b = Bridge::new(Vec2 { x: -MULT, y: MULT }, Vec2 { x: MULT, y: MULT });
    b.handle_event(InputEvent::Connected(1)).unwrap();
    b.handle_event(InputEvent::AxisChanged(1, Axis::LeftStickX, 1_000_000)).unwrap();
    assert_eq!(b.pads[0].unwrap().joy_left, Vec2 { x: -32_767, y: 0 });
}

#[test]
fn ignored_axis_changes_nothing() {
    let mut b = bridge();
    b.handle_event(InputEvent::Connected(1)).unwrap();
    b.handle_event(InputEvent::AxisChanged(1, Axis::LeftStickX, 500_000)).unwrap();
    b.handle_event(InputEvent::AxisChanged(1, Axis::Other, 999_999)).unwrap();
    assert_eq!(b.pads[0].unwrap().joy_left, Vec2 { x: 16_383, y: 0 });
}

#[test]
fn disconnect_empties_slot_and_stops_events() {
    let mut b = bridge();
    b.handle_event(InputEvent::Connected(1)).unwrap();
    b.handle_event(InputEvent::ButtonPressed(1, Button::East)).unwrap();
    b.handle_event(InputEvent::Disconnected(1)).unwrap();
    assert!(b.pads[0].is_none());
    assert_eq!(
        b.handle_event(InputEvent::ButtonPressed(1, Button::East)),
        Err(BridgeError::UnknownDevice)
    );
}

#[test]
fn reconnect_after_disconnect_starts_from_a_fresh_record() {
    let mut b = bridge();
    b.handle_event(InputEvent::Connected(1)).unwrap();
    b.handle_event(InputEvent::ButtonPressed(1, Button::East)).unwrap();
    b.handle_event(InputEvent::AxisChanged(1, Axis::LeftStickX, 1_000_000)).unwrap();
    b.handle_event(InputEvent::Disconnected(1)).unwrap();
    b.handle_event(InputEvent::Connected(1)).unwrap();
    let pad = b.pads[0].unwrap();
    assert_eq!(pad.keys, 0);
    assert_eq!(pad.joy_left, Vec2 { x: 0, y: 0 });
}

#[test]
fn update_encodes_current_table_into_frame() {
    let mut b = bridge();
    b.handle_event(InputEvent::Connected(1)).unwrap();
    b.handle_event(InputEvent::Connected(2)).unwrap();
    b.update();
    assert_eq!(b.frame.len(), 108);
    assert_eq!(&b.frame[0..2], &[0x76, 0x32]);
    assert_eq!(u16::from_le_bytes([b.frame[2], b.frame[3]]), 2);
    // slot 0 reports the pro-controller tag
    assert_eq!(&b.frame[4..6], &[1, 0]);
}

#[test]
fn teardown_frame_reports_all_slots_empty() {
    let mut b = bridge();
    for id in 0..4u64 {
        b.handle_event(InputEvent::Connected(id)).unwrap();
        b.handle_event(InputEvent::ButtonPressed(id, Button::East)).unwrap();
    }
    b.update();
    assert_eq!(u16::from_le_bytes([b.frame[2], b.frame[3]]), 4);
    assert!(matches!(b.phase, Phase::Running));
    b.observe_shutdown();
    assert!(matches!(b.phase, Phase::Draining));
    b.teardown();
    assert!(matches!(b.phase, Phase::Terminated));
    assert_eq!(b.frame.len(), 108);
    assert_eq!(&b.frame[0..2], &[0x76, 0x32]);
    assert!(b.frame[2..].iter().all(|&x| x == 0));
}

#[test]
fn failed_send_commands_exactly_one_reconnect_then_retry() {
    // a failed send demands a reconnect...
    let (p, cmd) = advance_link(LinkPhase::Sending, NetEvent::SendFailed);
    assert_eq!(cmd, NetCommand::Reconnect);
    assert_eq!(p, LinkPhase::Reconnecting);
    // ...whose success demands the retry send, back in the sending phase
    let (p, cmd) = advance_link(p, NetEvent::ReconnectSucceeded);
    assert_eq!(cmd, NetCommand::SendFrame);
    assert_eq!(p, LinkPhase::Sending);
    // a second failure repeats the cycle: one reconnect before each retry
    let (p, cmd) = advance_link(p, NetEvent::SendFailed);
    assert_eq!(cmd, NetCommand::Reconnect);
    let (_, cmd) = advance_link(p, NetEvent::ReconnectSucceeded);
    assert_eq!(cmd, NetCommand::SendFrame);
}

#[test]
fn successful_send_finishes_the_tick() {
    let (p, cmd) = advance_link(LinkPhase::Sending, NetEvent::SendSucceeded);
    assert_eq!(cmd, NetCommand::FinishTick);
    assert_eq!(p, LinkPhase::Sending);
}

#[test]
fn failed_reconnect_is_fatal() {
    let (_, cmd) = advance_link(LinkPhase::Reconnecting, NetEvent::ReconnectFailed);
    assert_eq!(cmd, NetCommand::Abort);
}

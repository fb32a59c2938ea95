//! Per-slot controller state: the button mask, the controller-type tag and the
//! accumulated stick outputs that the wire frame reports for one slot.

use crate::gamepads::Vec2;
use vstd::prelude::*;

verus! {

/// Bit assigned to each button in the 64-bit button mask of the wire frame.
pub const KEY_A: u64 = 1u64 << 0;

pub const KEY_B: u64 = 1u64 << 1;

pub const KEY_Y: u64 = 1u64 << 2;

pub const KEY_X: u64 = 1u64 << 3;

pub const KEY_LEFT_STICK: u64 = 1u64 << 4;

pub const KEY_RIGHT_STICK: u64 = 1u64 << 5;

pub const KEY_LEFT: u64 = 1u64 << 6;

pub const KEY_RIGHT: u64 = 1u64 << 7;

pub const KEY_BACK_LEFT: u64 = 1u64 << 8;

pub const KEY_BACK_RIGHT: u64 = 1u64 << 9;

pub const KEY_PLUS: u64 = 1u64 << 10;

pub const KEY_MINUS: u64 = 1u64 << 11;

pub const KEY_DPAD_LEFT: u64 = 1u64 << 12;

pub const KEY_DPAD_UP: u64 = 1u64 << 13;

pub const KEY_DPAD_RIGHT: u64 = 1u64 << 14;

pub const KEY_DPAD_DOWN: u64 = 1u64 << 15;

/// Physical buttons that the input source can report. `Other` stands for any
/// button that has no bit in the wire mask and therefore contributes nothing.
#[derive(Clone, Copy, Debug, PartialEq, Eq, Structural)]
pub enum Button {
    South,
    East,
    North,
    West,
    LeftTrigger,
    LeftTrigger2,
    RightTrigger,
    RightTrigger2,
    Select,
    Start,
    LeftThumb,
    RightThumb,
    DPadUp,
    DPadDown,
    DPadLeft,
    DPadRight,
    Other,
}

/// The mask bit a physical button sets or clears; unmapped buttons map to 0.
pub open spec fn key_mask_spec(b: Button) -> u64 {
    match b {
        Button::DPadDown => KEY_DPAD_DOWN,
        Button::DPadLeft => KEY_DPAD_LEFT,
        Button::DPadRight => KEY_DPAD_RIGHT,
        Button::DPadUp => KEY_DPAD_UP,
        Button::RightThumb => KEY_RIGHT_STICK,
        Button::LeftThumb => KEY_LEFT_STICK,
        Button::East => KEY_A,
        Button::West => KEY_X,
        Button::North => KEY_Y,
        Button::South => KEY_B,
        Button::LeftTrigger => KEY_LEFT,
        Button::RightTrigger => KEY_RIGHT,
        Button::LeftTrigger2 => KEY_BACK_LEFT,
        Button::RightTrigger2 => KEY_BACK_RIGHT,
        Button::Start => KEY_PLUS,
        Button::Select => KEY_MINUS,
        Button::Other => 0u64,
    }
}

/// Translates a physical button into its bit in the 64-bit button mask.
pub fn key_mask(b: Button) -> (m: u64)
    ensures
        m == key_mask_spec(b),
{
    match b {
        Button::DPadDown => KEY_DPAD_DOWN,
        Button::DPadLeft => KEY_DPAD_LEFT,
        Button::DPadRight => KEY_DPAD_RIGHT,
        Button::DPadUp => KEY_DPAD_UP,
        Button::RightThumb => KEY_RIGHT_STICK,
        Button::LeftThumb => KEY_LEFT_STICK,
        Button::East => KEY_A,
        Button::West => KEY_X,
        Button::North => KEY_Y,
        Button::South => KEY_B,
        Button::LeftTrigger => KEY_LEFT,
        Button::RightTrigger => KEY_RIGHT,
        Button::LeftTrigger2 => KEY_BACK_LEFT,
        Button::RightTrigger2 => KEY_BACK_RIGHT,
        Button::Start => KEY_PLUS,
        Button::Select => KEY_MINUS,
        Button::Other => 0u64,
    }
}

/// Controller sub-type reported in the frame; connected slots always report
/// the default, a pro controller.
#[derive(Clone, Copy, Debug, PartialEq, Eq, Structural)]
pub enum ControllerType {
    ProController,
    JoyConL,
    JoyConR,
}

/// Numeric tag each controller type encodes to on the wire.
pub open spec fn type_tag_spec(t: ControllerType) -> u16 {
    match t {
        ControllerType::ProController => 1u16,
        ControllerType::JoyConL => 2u16,
        ControllerType::JoyConR => 3u16,
    }
}

impl ControllerType {
    /// The wire tag of this controller type.
    pub fn tag(self) -> (t: u16)
        ensures
            t == type_tag_spec(self),
    {
        match self {
            ControllerType::ProController => 1u16,
            ControllerType::JoyConL => 2u16,
            ControllerType::JoyConR => 3u16,
        }
    }
}

/// Accumulated state of one occupied slot: type tag, button mask and the two
/// integer stick outputs, exactly what one 26-byte wire record carries.
#[derive(Clone, Copy, Debug, PartialEq, Eq, Structural)]
pub struct Controller {
    pub type_: ControllerType,
    pub keys: u64,
    pub joy_left: Vec2<i32>,
    pub joy_right: Vec2<i32>,
}

/// The state a slot starts in right after a device connects: pro controller,
/// no buttons held, both sticks centered.
pub open spec fn fresh_controller() -> Controller {
    Controller {
        type_: ControllerType::ProController,
        keys: 0u64,
        joy_left: Vec2 { x: 0i32, y: 0i32 },
        joy_right: Vec2 { x: 0i32, y: 0i32 },
    }
}

impl Controller {
    /// Builds the state a newly connected slot starts in.
    pub fn fresh() -> (c: Controller)
        ensures
            c == fresh_controller(),
    {
        Controller {
            type_: ControllerType::ProController,
            keys: 0u64,
            joy_left: Vec2 { x: 0i32, y: 0i32 },
            joy_right: Vec2 { x: 0i32, y: 0i32 },
        }
    }
}

} // verus!

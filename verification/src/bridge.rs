//! The bridge: drains input events into the slot table, serializes the table
//! into the wire frame once per tick, and decides the send/reconnect/teardown
//! protocol. Performing the actual polling, sleeping and socket I/O is the
//! caller's job; every decision is made here.

use crate::controller::{fresh_controller, key_mask, key_mask_spec, Button, Controller};
use crate::frame::{active_count, encode_frame, frame_spec, FRAME_LEN};
use crate::gamepads::{
    can_insert, clamp_circle, clamp_x, clamp_y, event_slot, insert_spec, mul_scaled, raw_in_range,
    remove_spec, BridgeError, GamepadAxis, GamepadState, Gamepads, Vec2, MAX_RAW, MULT_LIMIT,
};
use vstd::prelude::*;

verus! {

/// Stick axes the bridge reacts to; `Other` stands for any reported axis
/// without a stick coordinate in the frame, which is ignored.
#[derive(Clone, Copy, Debug, PartialEq, Eq, Structural)]
pub enum Axis {
    LeftStickX,
    LeftStickY,
    RightStickX,
    RightStickY,
    Other,
}

/// One event drained from the input source, tagged by the device that
/// caused it.
#[derive(Clone, Copy, Debug, PartialEq, Eq, Structural)]
pub enum InputEvent {
    Connected(u64),
    Disconnected(u64),
    AxisChanged(u64, Axis, i64),
    ButtonPressed(u64, Button),
    ButtonReleased(u64, Button),
}

/// Lifecycle of the bridge: running until a shutdown is observed, then
/// draining (teardown), then terminated.
#[derive(Clone, Copy, Debug, PartialEq, Eq, Structural)]
pub enum Phase {
    Running,
    Draining,
    Terminated,
}

/// The whole bridge state: slot registry, per-slot controller records, the
/// last encoded frame, the two per-stick multiplier pairs (scaled; negated
/// where an axis is inverted) and the lifecycle phase.
pub struct Bridge {
    pub gamepads: Gamepads,
    pub pads: [Option<Controller>; 4],
    pub frame: Vec<u8>,
    pub left_multiplier: Vec2<i64>,
    pub right_multiplier: Vec2<i64>,
    pub phase: Phase,
}

/// An axis sample the bridge accepts: the scaled coordinate is within
/// `MAX_RAW`. Other events carry no number to bound.
pub open spec fn event_in_range(ev: InputEvent) -> bool {
    match ev {
        InputEvent::AxisChanged(_, _, value) => -MAX_RAW <= value <= MAX_RAW,
        _ => true,
    }
}

/// A multiplier pair the normalizer accepts.
pub open spec fn multiplier_in_range(m: Vec2<i64>) -> bool {
    &&& -MULT_LIMIT <= m.x <= MULT_LIMIT
    &&& -MULT_LIMIT <= m.y <= MULT_LIMIT
}

impl Bridge {
    /// The bridge invariant: the registry is well formed, a slot holds a
    /// controller record exactly when a device holds the slot, every stored
    /// raw sample is in range, and the multipliers are in range.
    pub open spec fn wf(self) -> bool {
        &&& self.gamepads.wf()
        &&& forall|i: int|
            0 <= i < 4 ==> ((#[trigger] self.pads@[i]) is Some <==> self.gamepads.slots@[i]
                is Some)
        &&& forall|i: int|
            0 <= i < 4 && #[trigger] self.gamepads.slots@[i] is Some ==> raw_in_range(
                self.gamepads.slots@[i]->Some_0.axis.left,
            ) && raw_in_range(self.gamepads.slots@[i]->Some_0.axis.right)
        &&& multiplier_in_range(self.left_multiplier)
        &&& multiplier_in_range(self.right_multiplier)
    }

    /// Starts the bridge: empty slot table, zeroed frame buffer, running
    /// phase.
    pub fn new(left_multiplier: Vec2<i64>, right_multiplier: Vec2<i64>) -> (b: Bridge)
        requires
            multiplier_in_range(left_multiplier),
            multiplier_in_range(right_multiplier),
        ensures
            b.wf(),
            b.phase is Running,
            forall|i: int| 0 <= i < 4 ==> (#[trigger] b.pads@[i]) is None,
            forall|id: u64| !b.gamepads.registered(id),
            b.gamepads.q@.len() == 0,
            b.gamepads.last == 0,
            b.left_multiplier == left_multiplier,
            b.right_multiplier == right_multiplier,
            b.frame@ == Seq::new(FRAME_LEN as nat, |i: int| 0u8),
    {
        let frame: Vec<u8> = vec![0u8; 108];
        proof {
            assert(frame@ =~= Seq::new(FRAME_LEN as nat, |i: int| 0u8));
        }
        Bridge {
            gamepads: Gamepads::new(),
            pads: [None, None, None, None],
            frame,
            left_multiplier,
            right_multiplier,
            phase: Phase::Running,
        }
    }
}

/// The bridge state outside the frame buffer is untouched.
pub open spec fn unchanged_table(pre: Bridge, post: Bridge) -> bool {
    &&& post.gamepads.slots@ == pre.gamepads.slots@
    &&& post.gamepads.q@ == pre.gamepads.q@
    &&& post.gamepads.last == pre.gamepads.last
    &&& post.pads@ == pre.pads@
}

/// The raw stick state after one axis sample lands: only the named
/// coordinate is overwritten, every other coordinate is retained.
pub open spec fn axis_update(a: GamepadAxis, axis: Axis, value: i64) -> GamepadAxis {
    match axis {
        Axis::LeftStickX => GamepadAxis {
            left: Vec2 { x: value, y: a.left.y },
            right: a.right,
        },
        Axis::LeftStickY => GamepadAxis {
            left: Vec2 { x: a.left.x, y: value },
            right: a.right,
        },
        Axis::RightStickX => GamepadAxis {
            left: a.left,
            right: Vec2 { x: value, y: a.right.y },
        },
        Axis::RightStickY => GamepadAxis {
            left: a.left,
            right: Vec2 { x: a.right.x, y: value },
        },
        Axis::Other => a,
    }
}

/// How an axis event rewrites the affected slot's record: the changed
/// stick's output pair is recomputed from the clamped raw sample and the
/// multipliers; the other stick, the buttons and the type stay.
pub open spec fn stick_written(pre: Bridge, post: Bridge, s: int, axis: Axis, new_ax: GamepadAxis) -> bool {
    &&& forall|j: int| 0 <= j < 4 && j != s ==> #[trigger] post.pads@[j] == pre.pads@[j]
    &&& post.pads@[s] is Some
    &&& ({
        let oldc = pre.pads@[s]->Some_0;
        let newc = post.pads@[s]->Some_0;
        &&& newc.type_ == oldc.type_
        &&& newc.keys == oldc.keys
        &&& if axis is LeftStickX || axis is LeftStickY {
            &&& newc.joy_right == oldc.joy_right
            &&& newc.joy_left.x as int == mul_scaled(
                clamp_x(new_ax.left),
                pre.left_multiplier.x as int,
            )
            &&& newc.joy_left.y as int == mul_scaled(
                clamp_y(new_ax.left),
                pre.left_multiplier.y as int,
            )
        } else {
            &&& newc.joy_left == oldc.joy_left
            &&& newc.joy_right.x as int == mul_scaled(
                clamp_x(new_ax.right),
                pre.right_multiplier.x as int,
            )
            &&& newc.joy_right.y as int == mul_scaled(
                clamp_y(new_ax.right),
                pre.right_multiplier.y as int,
            )
        }
    })
}

/// Full meaning of `handle_event`: what every event does to the slot table
/// and registry, which events are refused, and with which error. The frame
/// buffer, the multipliers and the phase never change here.
pub open spec fn handle_spec(
    pre: Bridge,
    post: Bridge,
    ev: InputEvent,
    r: Result<(), BridgeError>,
) -> bool {
    &&& post.left_multiplier == pre.left_multiplier
    &&& post.right_multiplier == pre.right_multiplier
    &&& post.phase == pre.phase
    &&& post.frame@ == pre.frame@
    &&& match ev {
        InputEvent::Connected(id) => {
            if can_insert(pre.gamepads, id) {
                let s = event_slot(pre.gamepads, id);
                &&& r is Ok
                &&& insert_spec(pre.gamepads, post.gamepads, id, Ok(s as usize))
                &&& post.pads@ == pre.pads@.update(s, Some(fresh_controller()))
            } else {
                &&& r == Err::<(), BridgeError>(BridgeError::SlotExhausted)
                &&& unchanged_table(pre, post)
            }
        },
        InputEvent::Disconnected(id) => {
            if pre.gamepads.registered(id) {
                &&& r is Ok
                &&& remove_spec(pre.gamepads, post.gamepads, id)
                &&& post.pads@ == pre.pads@.update(
                    pre.gamepads.slot_of(id),
                    None::<Controller>,
                )
            } else {
                &&& r == Err::<(), BridgeError>(BridgeError::UnknownDevice)
                &&& unchanged_table(pre, post)
            }
        },
        InputEvent::AxisChanged(id, axis, value) => {
            if !pre.gamepads.registered(id) {
                &&& r == Err::<(), BridgeError>(BridgeError::UnknownDevice)
                &&& unchanged_table(pre, post)
            } else if axis is Other {
                &&& r is Ok
                &&& unchanged_table(pre, post)
            } else {
                let s = pre.gamepads.slot_of(id);
                let new_ax = axis_update(pre.gamepads.slots@[s]->Some_0.axis, axis, value);
                &&& r is Ok
                &&& post.gamepads.slots@ == pre.gamepads.slots@.update(
                    s,
                    Some(GamepadState { id, axis: new_ax }),
                )
                &&& post.gamepads.q@ == pre.gamepads.q@
                &&& post.gamepads.last == pre.gamepads.last
                &&& stick_written(pre, post, s, axis, new_ax)
            }
        },
        InputEvent::ButtonPressed(id, b) => button_spec(pre, post, id, b, true, r),
        InputEvent::ButtonReleased(id, b) => button_spec(pre, post, id, b, false, r),
    }
}

/// How a button event rewrites the affected slot's record: the button's bit
/// is set on press and cleared on release; everything else stays.
pub open spec fn button_spec(
    pre: Bridge,
    post: Bridge,
    id: u64,
    b: Button,
    pressed: bool,
    r: Result<(), BridgeError>,
) -> bool {
    if pre.gamepads.registered(id) {
        let s = pre.gamepads.slot_of(id);
        let oldc = pre.pads@[s]->Some_0;
        let newk = if pressed {
            oldc.keys | key_mask_spec(b)
        } else {
            oldc.keys & !key_mask_spec(b)
        };
        &&& r is Ok
        &&& post.gamepads.slots@ == pre.gamepads.slots@
        &&& post.gamepads.q@ == pre.gamepads.q@
        &&& post.gamepads.last == pre.gamepads.last
        &&& post.pads@ == pre.pads@.update(
            s,
            Some(
                (Controller {
                    type_: oldc.type_,
                    keys: newk,
                    joy_left: oldc.joy_left,
                    joy_right: oldc.joy_right,
                }),
            ),
        )
    } else {
        &&& r == Err::<(), BridgeError>(BridgeError::UnknownDevice)
        &&& unchanged_table(pre, post)
    }
}

impl Bridge {
    /// Applies one drained input event to the slot table: connects assign a
    /// slot and a fresh record, disconnects free both, axis and button
    /// events rewrite the owning slot's record. Events for unknown devices
    /// are refused with `UnknownDevice`, a fifth simultaneous connect with
    /// `SlotExhausted`.
    pub fn handle_event(&mut self, ev: InputEvent) -> (r: Result<(), BridgeError>)
        requires
            old(self).wf(),
            event_in_range(ev),
        ensures
            final(self).wf(),
            handle_spec(*old(self), *final(self), ev, r),
    {
        match ev {
            InputEvent::Connected(id) => {
                match self.gamepads.insert(id) {
                    Ok(s) => {
                        assert(s < 4);
                        self.pads[s] = Some(Controller::fresh());
                        Ok(())
                    },
                    Err(e) => Err(e),
                }
            },
            InputEvent::Disconnected(id) => {
                match self.gamepads.index_of(id) {
                    Ok(s) => {
                        assert(s < 4);
                        self.pads[s] = None;
                        self.gamepads.remove(id);
                        Ok(())
                    },
                    Err(e) => Err(e),
                }
            },
            InputEvent::AxisChanged(id, axis, value) => {
                let s = match self.gamepads.index_of(id) {
                    Ok(s) => s,
                    Err(e) => {
                        return Err(e);
                    },
                };
                if let Axis::Other = axis {
                    return Ok(());
                }
                assert(s < 4);
                let old_ax = self.gamepads.axis_at(s);
                let new_ax = match axis {
                    Axis::LeftStickX => GamepadAxis {
                        left: Vec2 { x: value, y: old_ax.left.y },
                        right: old_ax.right,
                    },
                    Axis::LeftStickY => GamepadAxis {
                        left: Vec2 { x: old_ax.left.x, y: value },
                        right: old_ax.right,
                    },
                    Axis::RightStickX => GamepadAxis {
                        left: old_ax.left,
                        right: Vec2 { x: value, y: old_ax.right.y },
                    },
                    Axis::RightStickY => GamepadAxis {
                        left: old_ax.left,
                        right: Vec2 { x: old_ax.right.x, y: value },
                    },
                    Axis::Other => vstd::pervasive::unreached(),
                };
                self.gamepads.overwrite_axis(s, new_ax);
                let c = match self.pads[s] {
                    Some(c) => c,
                    None => vstd::pervasive::unreached(),
                };
                let is_left = matches!(axis, Axis::LeftStickX | Axis::LeftStickY);
                if is_left {
                    let clamped = clamp_circle(new_ax.left);
                    let out = clamped.into_i32_multiplied(
                        self.left_multiplier.x,
                        self.left_multiplier.y,
                    );
                    self.pads[s] = Some(
                        Controller {
                            type_: c.type_,
                            keys: c.keys,
                            joy_left: out,
                            joy_right: c.joy_right,
                        },
                    );
                } else {
                    let clamped = clamp_circle(new_ax.right);
                    let out = clamped.into_i32_multiplied(
                        self.right_multiplier.x,
                        self.right_multiplier.y,
                    );
                    self.pads[s] = Some(
                        Controller {
                            type_: c.type_,
                            keys: c.keys,
                            joy_left: c.joy_left,
                            joy_right: out,
                        },
                    );
                }
                Ok(())
            },
            InputEvent::ButtonPressed(id, b) => self.apply_button(id, b, true),
            InputEvent::ButtonReleased(id, b) => self.apply_button(id, b, false),
        }
    }

    /// Sets or clears one button's bit in the owning slot's mask.
    fn apply_button(&mut self, id: u64, b: Button, pressed: bool) -> (r: Result<(), BridgeError>)
        requires
            old(self).wf(),
        ensures
            final(self).wf(),
            button_spec(*old(self), *final(self), id, b, pressed, r),
            final(self).left_multiplier == old(self).left_multiplier,
            final(self).right_multiplier == old(self).right_multiplier,
            final(self).phase == old(self).phase,
            final(self).frame@ == old(self).frame@,
    {
        let s = match self.gamepads.index_of(id) {
            Ok(s) => s,
            Err(e) => {
                return Err(e);
            },
        };
        assert(s < 4);
        let c = match self.pads[s] {
            Some(c) => c,
            None => vstd::pervasive::unreached(),
        };
        let m = key_mask(b);
        let newk = if pressed {
            c.keys | m
        } else {
            c.keys & !m
        };
        self.pads[s] = Some(
            Controller { type_: c.type_, keys: newk, joy_left: c.joy_left, joy_right: c.joy_right },
        );
        Ok(())
    }

    /// Serializes the current slot table into the frame buffer; nothing
    /// else moves. This is the per-tick step before a send.
    pub fn update(&mut self)
        ensures
            final(self).frame@ == frame_spec(old(self).pads@),
            final(self).gamepads == old(self).gamepads,
            final(self).pads@ == old(self).pads@,
            final(self).left_multiplier == old(self).left_multiplier,
            final(self).right_multiplier == old(self).right_multiplier,
            final(self).phase == old(self).phase,
            final(self).wf() <==> old(self).wf(),
    {
        self.frame = encode_frame(&self.pads);
    }

    /// Notes an externally raised shutdown request: the bridge leaves
    /// `Running` and will drain instead of starting another tick.
    pub fn observe_shutdown(&mut self)
        requires
            old(self).phase is Running,
        ensures
            final(self).phase is Draining,
            final(self).gamepads == old(self).gamepads,
            final(self).pads@ == old(self).pads@,
            final(self).frame@ == old(self).frame@,
            final(self).left_multiplier == old(self).left_multiplier,
            final(self).right_multiplier == old(self).right_multiplier,
    {
        self.phase = Phase::Draining;
    }

    /// Teardown before the process ends: empties all four slots and encodes
    /// the all-empty frame, so the last datagram ever sent releases every
    /// virtual input, whatever state shutdown interrupted.
    pub fn teardown(&mut self)
        requires
            old(self).phase is Draining,
        ensures
            final(self).phase is Terminated,
            forall|i: int| 0 <= i < 4 ==> (#[trigger] final(self).pads@[i]) is None,
            final(self).frame@ == frame_spec(final(self).pads@),
            active_count(final(self).pads@) == 0,
            final(self).frame@.len() == FRAME_LEN,
            final(self).gamepads == old(self).gamepads,
            final(self).left_multiplier == old(self).left_multiplier,
            final(self).right_multiplier == old(self).right_multiplier,
    {
        self.pads = [None, None, None, None];
        self.frame = encode_frame(&self.pads);
        self.phase = Phase::Terminated;
    }
}

/// Where the per-tick send protocol stands: about to (re)send the frame, or
/// waiting for a reconnect after a failed send.
#[derive(Clone, Copy, Debug, PartialEq, Eq, Structural)]
pub enum LinkPhase {
    Sending,
    Reconnecting,
}

/// What the transport reported back.
#[derive(Clone, Copy, Debug, PartialEq, Eq, Structural)]
pub enum NetEvent {
    SendSucceeded,
    SendFailed,
    ReconnectSucceeded,
    ReconnectFailed,
}

/// What the caller must do next.
#[derive(Clone, Copy, Debug, PartialEq, Eq, Structural)]
pub enum NetCommand {
    SendFrame,
    Reconnect,
    FinishTick,
    Abort,
}

/// The report fits where the protocol stands: sends are reported while
/// sending, reconnects while reconnecting.
pub open spec fn link_event_fits(p: LinkPhase, ev: NetEvent) -> bool {
    match p {
        LinkPhase::Sending => ev is SendSucceeded || ev is SendFailed,
        LinkPhase::Reconnecting => ev is ReconnectSucceeded || ev is ReconnectFailed,
    }
}

/// The retry protocol's transition: a successful send finishes the tick; a
/// failed send demands one reconnect; a successful reconnect demands the
/// retry send; a failed reconnect is fatal.
pub open spec fn advance_link_spec(p: LinkPhase, ev: NetEvent) -> (LinkPhase, NetCommand) {
    match (p, ev) {
        (LinkPhase::Sending, NetEvent::SendSucceeded) => (LinkPhase::Sending, NetCommand::FinishTick),
        (LinkPhase::Sending, NetEvent::SendFailed) => (
            LinkPhase::Reconnecting,
            NetCommand::Reconnect,
        ),
        (LinkPhase::Reconnecting, NetEvent::ReconnectSucceeded) => (
            LinkPhase::Sending,
            NetCommand::SendFrame,
        ),
        (LinkPhase::Reconnecting, NetEvent::ReconnectFailed) => (
            LinkPhase::Reconnecting,
            NetCommand::Abort,
        ),
        (_, _) => (p, NetCommand::Abort),
    }
}

/// Advances the send protocol by one transport report.
pub fn advance_link(p: LinkPhase, ev: NetEvent) -> (r: (LinkPhase, NetCommand))
    requires
        link_event_fits(p, ev),
    ensures
        r == advance_link_spec(p, ev),
{
    match (p, ev) {
        (LinkPhase::Sending, NetEvent::SendSucceeded) => (LinkPhase::Sending, NetCommand::FinishTick),
        (LinkPhase::Sending, NetEvent::SendFailed) => (
            LinkPhase::Reconnecting,
            NetCommand::Reconnect,
        ),
        (LinkPhase::Reconnecting, NetEvent::ReconnectSucceeded) => (
            LinkPhase::Sending,
            NetCommand::SendFrame,
        ),
        (LinkPhase::Reconnecting, NetEvent::ReconnectFailed) => (
            LinkPhase::Reconnecting,
            NetCommand::Abort,
        ),
        (_, _) => (p, NetCommand::Abort),
    }
}

/// Law: a failed send triggers exactly one reconnect before each retry —
/// the protocol commands a reconnect exactly on a failed send, and commands
/// the retry send exactly on the reconnect's success; the retry then stands
/// where a fresh send does.
pub proof fn lemma_retry_protocol(p: LinkPhase, ev: NetEvent)
    requires
        link_event_fits(p, ev),
    ensures
        advance_link_spec(p, ev).1 == NetCommand::Reconnect <==> (p is Sending
            && ev is SendFailed),
        advance_link_spec(p, ev).1 == NetCommand::SendFrame <==> (p is Reconnecting
            && ev is ReconnectSucceeded),
        (p is Sending && ev is SendFailed) ==> advance_link_spec(p, ev).0 is Reconnecting,
        (p is Reconnecting && ev is ReconnectSucceeded) ==> advance_link_spec(p, ev).0 is Sending,
        advance_link_spec(p, ev).1 == NetCommand::Abort <==> (p is Reconnecting
            && ev is ReconnectFailed),
{
}

} // verus!

//! Slot bookkeeping and stick arithmetic.
//!
//! Stick samples are carried as fixed-point integers: a raw coordinate of one
//! unit is `SCALE`. The axis multiplier is carried at the same scale, so the
//! integer sent on the wire is `trunc(sample * multiplier)` computed exactly
//! in integers.

use vstd::arithmetic::div_mod::{
    lemma_div_by_multiple, lemma_div_is_ordered, lemma_div_pos_is_pos, lemma_fundamental_div_mod,
};
use vstd::arithmetic::mul::lemma_mul_inequality;
use vstd::prelude::*;

verus! {

/// Fixed-point scale: this many integer steps stand for one unit of raw
/// stick deflection or one unit of multiplier.
pub const SCALE: i64 = 1_000_000;

/// `SCALE * SCALE`, the divisor that takes a product of two scaled values
/// back to an integer.
pub const SCALE_SQ: u64 = 1_000_000_000_000;

/// Largest raw coordinate magnitude the normalizer accepts (2000 units,
/// far beyond any real stick; keeps every intermediate product in range).
pub const MAX_RAW: i64 = 2_000_000_000;

/// Largest multiplier magnitude (scaled) the normalizer accepts; keeps every
/// stick output within `i32`.
pub const MULT_LIMIT: i64 = 2_147_483_647 * 1_000_000;

/// A two-dimensional vector; sticks use it for raw samples (`i64`, scaled)
/// and for the integer outputs sent on the wire (`i32`).
#[derive(Clone, Copy, Debug, PartialEq, Eq, Structural)]
pub struct Vec2<T> {
    pub x: T,
    pub y: T,
}

/// Integer division that rounds toward zero (for a positive divisor), the
/// rounding Rust's casts and divisions apply.
pub open spec fn div_tz(a: int, b: int) -> int {
    if a >= 0 {
        a / b
    } else {
        -((-a) / b)
    }
}

/// `r` is the integer square root of `n`, rounded down.
pub open spec fn is_sqrt_floor(n: int, r: int) -> bool {
    0 <= r && r * r <= n && n < (r + 1) * (r + 1)
}

/// The integer square root of `n`, rounded down.
pub open spec fn sqrt_floor(n: int) -> int {
    choose|r: int| is_sqrt_floor(n, r)
}

/// Every nonnegative integer has a floor square root, and `sqrt_floor`
/// denotes it.
pub proof fn lemma_sqrt_floor_exists(n: int)
    requires
        n >= 0,
    ensures
        is_sqrt_floor(n, sqrt_floor(n)),
    decreases n,
{
    if n == 0 {
        assert(is_sqrt_floor(0, 0));
    } else {
        lemma_sqrt_floor_exists(n - 1);
        let r = sqrt_floor(n - 1);
        if (r + 1) * (r + 1) <= n {
            assert(n == (r + 1) * (r + 1));
            assert((r + 1) * (r + 1) < (r + 2) * (r + 2)) by (nonlinear_arith)
                requires
                    r >= 0,
            ;
            assert(is_sqrt_floor(n, r + 1));
        } else {
            assert(is_sqrt_floor(n, r));
        }
    }
}

/// The floor square root is unique: any witness equals `sqrt_floor`.
pub proof fn lemma_sqrt_floor_unique(n: int, r: int)
    requires
        n >= 0,
        is_sqrt_floor(n, r),
    ensures
        r == sqrt_floor(n),
{
    lemma_sqrt_floor_exists(n);
    let s = sqrt_floor(n);
    if r < s {
        assert((r + 1) * (r + 1) <= s * s) by (nonlinear_arith)
            requires
                0 <= r,
                r < s,
        ;
    }
    if s < r {
        assert((s + 1) * (s + 1) <= r * r) by (nonlinear_arith)
            requires
                0 <= s,
                s < r,
        ;
    }
}

/// Computes the floor integer square root by bisection.
pub fn isqrt64(v: u64) -> (r: u64)
    ensures
        is_sqrt_floor(v as int, r as int),
{
    let mut lo: u64 = 0;
    let mut hi: u64 = 0x1_0000_0000;
    while hi - lo > 1
        invariant
            lo < hi,
            hi <= 0x1_0000_0000u64,
            (lo as int) * (lo as int) <= v as int,
            (v as int) < (hi as int) * (hi as int),
        decreases hi - lo,
    {
        proof {
            lemma_fundamental_div_mod((hi - lo) as int, 2);
        }
        let mid = lo + (hi - lo) / 2;
        proof {
            assert(lo < mid && mid < hi);
            assert((mid as int) * (mid as int) <= 0xffff_ffffint * 0xffff_ffffint)
                by (nonlinear_arith)
                requires
                    mid <= 0xffff_ffffu64,
            ;
        }
        let sq = mid * mid;
        if sq <= v {
            lo = mid;
        } else {
            hi = mid;
        }
    }
    lo
}

/// The squared Euclidean norm of a raw stick sample.
pub open spec fn norm2(v: Vec2<i64>) -> int {
    (v.x as int) * (v.x as int) + (v.y as int) * (v.y as int)
}

/// A raw sample the normalizer accepts: both coordinates within `MAX_RAW`.
pub open spec fn raw_in_range(v: Vec2<i64>) -> bool {
    &&& -MAX_RAW <= v.x <= MAX_RAW
    &&& -MAX_RAW <= v.y <= MAX_RAW
}

/// The x coordinate after clamping to the unit disk: unchanged inside the
/// disk, otherwise divided by the norm so the vector keeps its direction at
/// unit length.
pub open spec fn clamp_x(v: Vec2<i64>) -> int {
    if norm2(v) <= (SCALE as int) * (SCALE as int) {
        v.x as int
    } else {
        div_tz((v.x as int) * (SCALE as int), sqrt_floor(norm2(v)))
    }
}

/// The y coordinate after clamping to the unit disk.
pub open spec fn clamp_y(v: Vec2<i64>) -> int {
    if norm2(v) <= (SCALE as int) * (SCALE as int) {
        v.y as int
    } else {
        div_tz((v.y as int) * (SCALE as int), sqrt_floor(norm2(v)))
    }
}

/// One signed coordinate divided by the (positive) norm, computed on
/// magnitudes; helper for `clamp_circle`.
fn scale_to_norm(c: i64, n: u64) -> (r: i64)
    requires
        -MAX_RAW <= c <= MAX_RAW,
        0 < n,
        -(c as int) <= n as int,
        c as int <= n as int,
    ensures
        r as int == div_tz((c as int) * (SCALE as int), n as int),
        -SCALE <= r <= SCALE,
{
    let mag: u64 = if c >= 0 {
        c as u64
    } else {
        (-c) as u64
    };
    let scaled: u64 = mag * (SCALE as u64);
    let q: u64 = scaled / n;
    proof {
        lemma_mul_inequality(mag as int, n as int, SCALE as int);
        lemma_div_is_ordered((mag as int) * (SCALE as int), (n as int) * (SCALE as int), n as int);
        lemma_div_by_multiple(SCALE as int, n as int);
        assert((n as int) * (SCALE as int) == (SCALE as int) * (n as int));
        assert(q <= SCALE as u64);
        if c >= 0 {
            assert((mag as int) * (SCALE as int) == (c as int) * (SCALE as int));
        } else {
            assert((mag as int) * (SCALE as int) == -((c as int) * (SCALE as int)))
                by (nonlinear_arith)
                requires
                    mag as int == -(c as int),
            ;
        }
        lemma_div_pos_is_pos((mag as int) * (SCALE as int), n as int);
    }
    if c >= 0 {
        q as i64
    } else {
        -(q as i64)
    }
}

/// Clamps a raw stick sample to the unit disk: samples whose norm exceeds
/// one unit are rescaled to unit length, keeping their direction; samples
/// inside the disk pass through unchanged.
pub fn clamp_circle(v: Vec2<i64>) -> (r: Vec2<i64>)
    requires
        raw_in_range(v),
    ensures
        r.x as int == clamp_x(v),
        r.y as int == clamp_y(v),
        -SCALE <= r.x <= SCALE,
        -SCALE <= r.y <= SCALE,
{
    let ax: u64 = if v.x >= 0 {
        v.x as u64
    } else {
        (-v.x) as u64
    };
    let ay: u64 = if v.y >= 0 {
        v.y as u64
    } else {
        (-v.y) as u64
    };
    proof {
        assert((ax as int) * (ax as int) == (v.x as int) * (v.x as int)) by (nonlinear_arith)
            requires
                ax as int == v.x as int || ax as int == -(v.x as int),
        ;
        assert((ay as int) * (ay as int) == (v.y as int) * (v.y as int)) by (nonlinear_arith)
            requires
                ay as int == v.y as int || ay as int == -(v.y as int),
        ;
        assert((ax as int) * (ax as int) <= 2_000_000_000int * 2_000_000_000int)
            by (nonlinear_arith)
            requires
                ax <= 2_000_000_000u64,
        ;
        assert((ay as int) * (ay as int) <= 2_000_000_000int * 2_000_000_000int)
            by (nonlinear_arith)
            requires
                ay <= 2_000_000_000u64,
        ;
    }
    let n2: u64 = ax * ax + ay * ay;
    if n2 <= SCALE_SQ {
        proof {
            assert((v.x as int) * (v.x as int) <= n2 as int);
            assert(-SCALE <= v.x <= SCALE) by (nonlinear_arith)
                requires
                    (v.x as int) * (v.x as int) <= 1_000_000_000_000int,
            ;
            assert(-SCALE <= v.y <= SCALE) by (nonlinear_arith)
                requires
                    (v.y as int) * (v.y as int) <= 1_000_000_000_000int,
            ;
        }
        v
    } else {
        let n = isqrt64(n2);
        proof {
            lemma_sqrt_floor_unique(n2 as int, n as int);
            assert(n >= 1);
            assert(-(v.x as int) <= n as int && v.x as int <= n as int) by (nonlinear_arith)
                requires
                    (v.x as int) * (v.x as int) <= n2 as int,
                    (n2 as int) < ((n as int) + 1) * ((n as int) + 1),
                    n >= 0,
            ;
            assert(-(v.y as int) <= n as int && v.y as int <= n as int) by (nonlinear_arith)
                requires
                    (v.y as int) * (v.y as int) <= n2 as int,
                    (n2 as int) < ((n as int) + 1) * ((n as int) + 1),
                    n >= 0,
            ;
        }
        let rx = scale_to_norm(v.x, n);
        let ry = scale_to_norm(v.y, n);
        Vec2 { x: rx, y: ry }
    }
}

/// A scaled coordinate times a scaled multiplier, truncated toward zero to
/// the integer the wire record carries.
pub open spec fn mul_scaled(c: int, m: int) -> int {
    div_tz(c * m, (SCALE as int) * (SCALE as int))
}

/// One clamped coordinate scaled by one multiplier; helper for
/// `into_i32_multiplied`.
fn scale_component(c: i64, m: i64) -> (r: i32)
    requires
        -SCALE <= c <= SCALE,
        -MULT_LIMIT <= m <= MULT_LIMIT,
    ensures
        r as int == mul_scaled(c as int, m as int),
{
    let cu: u128 = if c >= 0 {
        c as u128
    } else {
        (-c) as u128
    };
    let mu: u128 = if m >= 0 {
        m as u128
    } else {
        (-m) as u128
    };
    proof {
        assert((cu as int) * (mu as int) <= 1_000_000int * 2_147_483_647_000_000int)
            by (nonlinear_arith)
            requires
                cu <= 1_000_000u128,
                mu <= 2_147_483_647_000_000u128,
        ;
    }
    let p: u128 = cu * mu;
    let q: u128 = p / (SCALE_SQ as u128);
    proof {
        lemma_mul_inequality(cu as int, 1_000_000int, mu as int);
        assert((cu as int) * (mu as int) <= 1_000_000int * (mu as int));
        assert(1_000_000int * (mu as int) <= 1_000_000int * 2_147_483_647_000_000int)
            by (nonlinear_arith)
            requires
                mu <= 2_147_483_647_000_000u128,
        ;
        lemma_div_is_ordered(
            (cu as int) * (mu as int),
            2_147_483_647_000_000_000_000int,
            1_000_000_000_000int,
        );
        assert(q <= 2_147_483_647u128);
        lemma_div_pos_is_pos((cu as int) * (mu as int), 1_000_000_000_000int);
        assert((cu as int) * (mu as int) == (c as int) * (m as int)
            || (cu as int) * (mu as int) == -((c as int) * (m as int))) by (nonlinear_arith)
            requires
                cu as int == c as int || cu as int == -(c as int),
                mu as int == m as int || mu as int == -(m as int),
        ;
        if (c as int) * (m as int) >= 0 {
            assert((cu as int) * (mu as int) == (c as int) * (m as int)) by (nonlinear_arith)
                requires
                    (c as int) * (m as int) >= 0,
                    cu as int >= 0,
                    mu as int >= 0,
                    (cu as int) * (mu as int) == (c as int) * (m as int) || (cu as int) * (mu
                        as int) == -((c as int) * (m as int)),
            ;
        }
    }
    let neg: bool = (c < 0) != (m < 0);
    if neg {
        proof {
            if (c as int) * (m as int) > 0 {
                assert(false) by (nonlinear_arith)
                    requires
                        (c as int) * (m as int) > 0,
                        (c < 0 && m >= 0) || (c >= 0 && m < 0),
                ;
            }
        }
        -(q as i32)
    } else {
        proof {
            if (c as int) * (m as int) < 0 {
                assert(false) by (nonlinear_arith)
                    requires
                        (c as int) * (m as int) < 0,
                        (c >= 0 && m >= 0) || (c < 0 && m < 0),
                ;
            }
        }
        q as i32
    }
}

/// Errors of the slot registry: a fifth simultaneous device, or an event for
/// a device that holds no slot.
#[derive(Clone, Copy, Debug, PartialEq, Eq, Structural)]
pub enum BridgeError {
    SlotExhausted,
    UnknownDevice,
}

/// Raw (scaled) last-known samples of the two sticks of one device.
#[derive(Clone, Copy, Debug, PartialEq, Eq, Structural)]
pub struct GamepadAxis {
    pub left: Vec2<i64>,
    pub right: Vec2<i64>,
}

/// Both sticks at rest, the raw state a slot starts in.
pub open spec fn centered_axis() -> GamepadAxis {
    GamepadAxis {
        left: Vec2 { x: 0i64, y: 0i64 },
        right: Vec2 { x: 0i64, y: 0i64 },
    }
}

impl GamepadAxis {
    /// Builds the at-rest raw stick state.
    pub fn centered() -> (a: GamepadAxis)
        ensures
            a == centered_axis(),
    {
        GamepadAxis {
            left: Vec2 { x: 0i64, y: 0i64 },
            right: Vec2 { x: 0i64, y: 0i64 },
        }
    }
}

/// What one occupied slot remembers: the device that holds it and that
/// device's raw stick samples.
#[derive(Clone, Copy, Debug, PartialEq, Eq, Structural)]
pub struct GamepadState {
    pub id: u64,
    pub axis: GamepadAxis,
}

/// The slot registry: four fixed slots, each held by at most one device, a
/// LIFO free list of slots given back by disconnects, and the count of slots
/// ever handed out.
pub struct Gamepads {
    pub slots: [Option<GamepadState>; 4],
    pub q: Vec<usize>,
    pub last: usize,
}

impl Gamepads {
    /// Slot `i` currently belongs to some device.
    pub open spec fn occupied(self, i: int) -> bool {
        self.slots@[i] is Some
    }

    /// The device holding slot `i` (meaningful only when occupied).
    pub open spec fn id_at(self, i: int) -> u64 {
        self.slots@[i]->Some_0.id
    }

    /// The slot assigned to `id`, or -1 when the device holds none.
    pub open spec fn slot_of(self, id: u64) -> int {
        if self.occupied(0) && self.id_at(0) == id {
            0
        } else if self.occupied(1) && self.id_at(1) == id {
            1
        } else if self.occupied(2) && self.id_at(2) == id {
            2
        } else if self.occupied(3) && self.id_at(3) == id {
            3
        } else {
            -1
        }
    }

    /// The device currently holds a slot.
    pub open spec fn registered(self, id: u64) -> bool {
        self.slot_of(id) >= 0
    }

    /// The registry invariant: at most four slots ever handed out; the free
    /// list only names slots below that mark, free and pairwise distinct;
    /// slots never handed out are empty; every empty slot below the mark is
    /// on the free list; and no device holds two slots.
    pub open spec fn wf(self) -> bool {
        &&& self.last <= 4
        &&& forall|k: int|
            0 <= k < self.q@.len() ==> (#[trigger] self.q@[k]) < self.last
        &&& forall|k: int|
            0 <= k < self.q@.len() ==> self.slots@[#[trigger] self.q@[k] as int] is None
        &&& forall|k1: int, k2: int|
            0 <= k1 < k2 < self.q@.len() ==> #[trigger] self.q@[k1] != #[trigger] self.q@[k2]
        &&& forall|i: int| self.last <= i < 4 ==> #[trigger] self.slots@[i] is None
        &&& forall|i: int|
            0 <= i < self.last && #[trigger] self.slots@[i] is None ==> self.q@.contains(
                i as usize,
            )
        &&& forall|i: int, j: int|
            0 <= i < 4 && 0 <= j < 4 && i != j && #[trigger] self.slots@[i] is Some
                && #[trigger] self.slots@[j] is Some ==> self.slots@[i]->Some_0.id
                != self.slots@[j]->Some_0.id
    }

    /// Builds an empty registry: no device registered, nothing on the free
    /// list, no slot ever handed out.
    pub fn new() -> (g: Gamepads)
        ensures
            g.wf(),
            g.last == 0,
            g.q@.len() == 0,
            forall|i: int| 0 <= i < 4 ==> #[trigger] g.slots@[i] is None,
            forall|id: u64| !g.registered(id),
    {
        Gamepads { slots: [None, None, None, None], q: Vec::new(), last: 0 }
    }

    /// Looks the device's slot up; an unregistered device is refused with
    /// `UnknownDevice`.
    pub fn index_of(&self, id: u64) -> (r: Result<usize, BridgeError>)
        ensures
            self.registered(id) ==> r == Ok::<usize, BridgeError>(self.slot_of(id) as usize),
            !self.registered(id) ==> r == Err::<usize, BridgeError>(BridgeError::UnknownDevice),
    {
        let s0 = self.slots[0];
        if let Some(st) = s0 {
            if st.id == id {
                return Ok(0);
            }
        }
        let s1 = self.slots[1];
        if let Some(st) = s1 {
            if st.id == id {
                return Ok(1);
            }
        }
        let s2 = self.slots[2];
        if let Some(st) = s2 {
            if st.id == id {
                return Ok(2);
            }
        }
        let s3 = self.slots[3];
        if let Some(st) = s3 {
            if st.id == id {
                return Ok(3);
            }
        }
        Err(BridgeError::UnknownDevice)
    }

    /// The raw stick samples of the device holding `slot`.
    pub fn axis_at(&self, slot: usize) -> (a: GamepadAxis)
        requires
            slot < 4,
            self.slots@[slot as int] is Some,
        ensures
            a == self.slots@[slot as int]->Some_0.axis,
    {
        match self.slots[slot] {
            Some(st) => st.axis,
            None => vstd::pervasive::unreached(),
        }
    }

    /// Overwrites the raw stick samples of the device holding `slot`,
    /// leaving the assignment itself untouched.
    pub fn overwrite_axis(&mut self, slot: usize, axis: GamepadAxis)
        requires
            old(self).wf(),
            slot < 4,
            old(self).slots@[slot as int] is Some,
        ensures
            final(self).wf(),
            final(self).slots@ == old(self).slots@.update(
                slot as int,
                Some(
                    (GamepadState {
                        id: old(self).slots@[slot as int]->Some_0.id,
                        axis,
                    }),
                ),
            ),
            final(self).q@ == old(self).q@,
            final(self).last == old(self).last,
    {
        let id = match self.slots[slot] {
            Some(st) => st.id,
            None => vstd::pervasive::unreached(),
        };
        self.slots[slot] = Some(GamepadState { id, axis });
        proof {
            assert forall|i: int|
                0 <= i < old(self).last && #[trigger] self.slots@[i] is None implies self
                .q@.contains(i as usize) by {
                assert(old(self).slots@[i] is None);
            }
        }
    }
}

/// How `insert` changes the registry: an already-registered device keeps its
/// slot and nothing moves; otherwise the most recently freed slot is reused,
/// or a never-yet-handed-out one is taken, or `SlotExhausted` is refused with
/// the registry unchanged. The assigned slot starts with centered sticks.
pub open spec fn insert_spec(
    pre: Gamepads,
    post: Gamepads,
    id: u64,
    r: Result<usize, BridgeError>,
) -> bool {
    if pre.registered(id) {
        &&& r == Ok::<usize, BridgeError>(pre.slot_of(id) as usize)
        &&& post.slots@ == pre.slots@
        &&& post.q@ == pre.q@
        &&& post.last == pre.last
    } else if pre.q@.len() > 0 {
        &&& r == Ok::<usize, BridgeError>(pre.q@.last())
        &&& post.slots@ == pre.slots@.update(
            pre.q@.last() as int,
            Some(GamepadState { id, axis: centered_axis() }),
        )
        &&& post.q@ == pre.q@.drop_last()
        &&& post.last == pre.last
    } else if pre.last < 4 {
        &&& r == Ok::<usize, BridgeError>(pre.last)
        &&& post.slots@ == pre.slots@.update(
            pre.last as int,
            Some(GamepadState { id, axis: centered_axis() }),
        )
        &&& post.q@ == pre.q@
        &&& post.last == pre.last + 1
    } else {
        &&& r == Err::<usize, BridgeError>(BridgeError::SlotExhausted)
        &&& post.slots@ == pre.slots@
        &&& post.q@ == pre.q@
        &&& post.last == pre.last
    }
}

/// A connect can be granted: the device already holds a slot, or some slot
/// is free, or one was never handed out yet.
pub open spec fn can_insert(g: Gamepads, id: u64) -> bool {
    ||| g.registered(id)
    ||| g.q@.len() > 0
    ||| g.last < 4
}

/// The slot a granted connect assigns: the one already held, else the most
/// recently freed, else the next never-yet-handed-out one.
pub open spec fn event_slot(g: Gamepads, id: u64) -> int {
    if g.registered(id) {
        g.slot_of(id)
    } else if g.q@.len() > 0 {
        g.q@.last() as int
    } else {
        g.last as int
    }
}

/// How `remove` changes the registry: a registered device's slot is emptied
/// and pushed on the free list; removing an unknown device changes nothing.
pub open spec fn remove_spec(pre: Gamepads, post: Gamepads, id: u64) -> bool {
    if pre.registered(id) {
        &&& post.slots@ == pre.slots@.update(pre.slot_of(id), None::<GamepadState>)
        &&& post.q@ == pre.q@.push(pre.slot_of(id) as usize)
        &&& post.last == pre.last
    } else {
        &&& post.slots@ == pre.slots@
        &&& post.q@ == pre.q@
        &&& post.last == pre.last
    }
}

impl Gamepads {
    /// Assigns a slot to a newly connected device, reusing the most recently
    /// freed slot first; a fifth simultaneous device is refused with
    /// `SlotExhausted`.
    pub fn insert(&mut self, id: u64) -> (r: Result<usize, BridgeError>)
        requires
            old(self).wf(),
        ensures
            final(self).wf(),
            insert_spec(*old(self), *final(self), id, r),
    {
        match self.index_of(id) {
            Ok(i) => {
                return Ok(i);
            },
            Err(_) => {},
        }
        if let Some(i) = self.q.pop() {
            self.slots[i] = Some(GamepadState { id, axis: GamepadAxis::centered() });
            proof {
                lemma_insert_wf_freed(*old(self), *self, id, i);
            }
            Ok(i)
        } else if self.last < 4 {
            let i = self.last;
            self.slots[i] = Some(GamepadState { id, axis: GamepadAxis::centered() });
            self.last = i + 1;
            proof {
                lemma_insert_wf_fresh(*old(self), *self, id, i);
            }
            Ok(i)
        } else {
            Err(BridgeError::SlotExhausted)
        }
    }

    /// Releases the slot of a disconnected device onto the free list;
    /// removing a device that holds no slot is a no-op.
    pub fn remove(&mut self, id: u64)
        requires
            old(self).wf(),
        ensures
            final(self).wf(),
            remove_spec(*old(self), *final(self), id),
    {
        match self.index_of(id) {
            Ok(i) => {
                self.slots[i] = None;
                self.q.push(i);
                proof {
                    lemma_remove_wf(*old(self), *self, id, i);
                }
            },
            Err(_) => {},
        }
    }
}

/// `insert` reusing a freed slot keeps the registry well formed.
proof fn lemma_insert_wf_freed(pre: Gamepads, post: Gamepads, id: u64, i: usize)
    requires
        pre.wf(),
        !pre.registered(id),
        pre.q@.len() > 0,
        i == pre.q@.last(),
        post.slots@ == pre.slots@.update(i as int, Some(GamepadState { id, axis: centered_axis() })),
        post.q@ == pre.q@.drop_last(),
        post.last == pre.last,
    ensures
        post.wf(),
{
    let n = pre.q@.len();
    assert forall|j: int|
        0 <= j < post.last && #[trigger] post.slots@[j] is None implies post.q@.contains(
        j as usize,
    ) by {
        assert(pre.slots@[j] is None);
        assert(pre.q@.contains(j as usize));
        let k = choose|k: int| 0 <= k < n && pre.q@[k] == j as usize;
        assert(pre.q@[k] == j as usize);
        assert(j != i as int);
        assert(k != n - 1);
        assert(post.q@[k] == j as usize);
    }
}

/// `insert` taking a never-yet-handed-out slot keeps the registry well
/// formed.
proof fn lemma_insert_wf_fresh(pre: Gamepads, post: Gamepads, id: u64, i: usize)
    requires
        pre.wf(),
        !pre.registered(id),
        pre.q@.len() == 0,
        pre.last < 4,
        i == pre.last,
        post.slots@ == pre.slots@.update(i as int, Some(GamepadState { id, axis: centered_axis() })),
        post.q@ == pre.q@,
        post.last == pre.last + 1,
    ensures
        post.wf(),
{
    assert forall|j: int|
        0 <= j < post.last && #[trigger] post.slots@[j] is None implies post.q@.contains(
        j as usize,
    ) by {
        assert(j != i as int);
        assert(pre.slots@[j] is None);
        assert(pre.q@.contains(j as usize));
    }
}

/// `remove` of a registered device keeps the registry well formed.
proof fn lemma_remove_wf(pre: Gamepads, post: Gamepads, id: u64, i: usize)
    requires
        pre.wf(),
        pre.registered(id),
        i as int == pre.slot_of(id),
        post.slots@ == pre.slots@.update(i as int, None::<GamepadState>),
        post.q@ == pre.q@.push(i),
        post.last == pre.last,
    ensures
        post.wf(),
{
    let n = pre.q@.len();
    assert(pre.slots@[i as int] is Some);
    assert forall|k: int| 0 <= k < post.q@.len() implies (#[trigger] post.q@[k]) < post.last by {
        if k < n {
            assert(post.q@[k] == pre.q@[k]);
        } else {
            assert(post.q@[k] == i);
            assert(pre.slots@[i as int] is Some);
        }
    }
    assert forall|k1: int, k2: int| 0 <= k1 < k2 < post.q@.len() implies #[trigger] post.q@[k1]
        != #[trigger] post.q@[k2] by {
        if k2 < n {
        } else {
            assert(post.q@[k2] == i);
            assert(pre.slots@[pre.q@[k1] as int] is None);
        }
    }
    assert forall|j: int|
        0 <= j < post.last && #[trigger] post.slots@[j] is None implies post.q@.contains(
        j as usize,
    ) by {
        if j == i as int {
            assert(post.q@[n as int] == i);
        } else {
            assert(pre.slots@[j] is None);
            assert(pre.q@.contains(j as usize));
            let k = choose|k: int| 0 <= k < n && pre.q@[k] == j as usize;
            assert(post.q@[k] == j as usize);
        }
    }
}

/// Law: slot reuse is LIFO — right after a registered device is removed,
/// the next connect of a device that holds no slot is granted and receives
/// exactly the slot just freed.
pub proof fn lemma_lifo_reuse(pre: Gamepads, post: Gamepads, id: u64, id2: u64)
    requires
        pre.wf(),
        pre.registered(id),
        remove_spec(pre, post, id),
        !post.registered(id2),
    ensures
        can_insert(post, id2),
        event_slot(post, id2) == pre.slot_of(id),
{
    assert(post.q@.last() == pre.slot_of(id) as usize);
}

/// Law: two distinct simultaneously-live devices never share a slot, and
/// every assigned slot index lies in [0, 4).
pub proof fn lemma_slots_exclusive(g: Gamepads, id1: u64, id2: u64)
    requires
        g.wf(),
        g.registered(id1),
        g.registered(id2),
        id1 != id2,
    ensures
        0 <= g.slot_of(id1) < 4,
        0 <= g.slot_of(id2) < 4,
        g.slot_of(id1) != g.slot_of(id2),
{
}

impl Vec2<i64> {
    /// Scales a clamped stick sample by the per-axis multipliers and
    /// truncates each coordinate toward zero to the integer pair the wire
    /// record carries. A negated multiplier inverts its axis.
    pub fn into_i32_multiplied(self, x_mul: i64, y_mul: i64) -> (r: Vec2<i32>)
        requires
            -SCALE <= self.x <= SCALE,
            -SCALE <= self.y <= SCALE,
            -MULT_LIMIT <= x_mul <= MULT_LIMIT,
            -MULT_LIMIT <= y_mul <= MULT_LIMIT,
        ensures
            r.x as int == mul_scaled(self.x as int, x_mul as int),
            r.y as int == mul_scaled(self.y as int, y_mul as int),
    {
        Vec2 { x: scale_component(self.x, x_mul), y: scale_component(self.y, y_mul) }
    }
}

} // verus!

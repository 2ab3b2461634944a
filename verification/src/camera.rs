//! The camera's orientation and aspect, and the distances it travels.
//!
//! Angles are whole milliradians and distances whole micro-units, so that the
//! drag sensitivity, the pitch limit and both speeds are exact integers.

use vstd::prelude::*;
use crate::input::{saturate, DragStep, InputState};
use crate::keys::{key_action, Key, MoveAction};

verus! {

/// Milliradians that the view turns for each pixel of drag.
pub const SENSITIVITY: i64 = 5;

/// The pitch never leaves `-PITCH_LIMIT ..= PITCH_LIMIT`, in milliradians,
/// which keeps the view direction off the vertical axis.
pub const PITCH_LIMIT: i64 = 1500;

/// Micro-units that one held movement key moves the camera per tick.
pub const MOVE_SPEED: i32 = 50_000;

/// Micro-units that one scroll unit moves the camera along its view direction.
pub const ZOOM_SPEED: i64 = 500;

/// A ratio of width to height, kept as the two numbers it was made from.
#[derive(Clone, Copy, Debug, PartialEq, Eq, Structural)]
pub struct Aspect {
    pub width: u32,
    pub height: u32,
}

/// Per-tick travel along the camera's three axes, in micro-units.
#[derive(Clone, Copy, Debug, PartialEq, Eq, Structural)]
pub struct Displacement {
    pub forward: i32,
    pub right: i32,
    pub up: i32,
}

/// `pitch` held to the pitch limit.
pub open spec fn clamp_pitch(pitch: int) -> int {
    if pitch < -PITCH_LIMIT {
        -PITCH_LIMIT as int
    } else if pitch > PITCH_LIMIT {
        PITCH_LIMIT as int
    } else {
        pitch
    }
}

/// Whether `pitch` is within the pitch limit.
pub open spec fn pitch_in_range(pitch: int) -> bool {
    -PITCH_LIMIT <= pitch <= PITCH_LIMIT
}

/// The mathematical content of a [`Camera`].
pub ghost struct CameraView {
    pub yaw: int,
    pub pitch: int,
    pub aspect: Aspect,
}

/// The camera after a drag of `dx` pixels to the right and `dy` pixels down:
/// the yaw grows with `dx`, the pitch falls with `dy` and is then clamped.
pub open spec fn dragged(v: CameraView, dx: int, dy: int) -> CameraView {
    CameraView {
        yaw: saturate(v.yaw + SENSITIVITY * dx),
        pitch: clamp_pitch(v.pitch - SENSITIVITY * dy),
        ..v
    }
}

/// The camera after a run of drag steps, first to last.
pub open spec fn dragged_by(v: CameraView, steps: Seq<DragStep>) -> CameraView
    decreases steps.len(),
{
    if steps.len() == 0 {
        v
    } else {
        let before = dragged_by(v, steps.drop_last());
        dragged(before, steps.last().dx as int, steps.last().dy as int)
    }
}

/// The camera after its aspect was set from a width and a height. A zero
/// width or height leaves the aspect as it was.
pub open spec fn with_aspect(v: CameraView, width: u32, height: u32) -> CameraView {
    if width > 0 && height > 0 {
        CameraView { aspect: Aspect { width, height }, ..v }
    } else {
        v
    }
}

/// The per-tick travel of one movement: one step along its axis.
pub open spec fn action_step(action: MoveAction) -> Displacement {
    match action {
        MoveAction::Forward => Displacement { forward: MOVE_SPEED, right: 0, up: 0 },
        MoveAction::Back => Displacement { forward: (-MOVE_SPEED) as i32, right: 0, up: 0 },
        MoveAction::StrafeRight => Displacement { forward: 0, right: MOVE_SPEED, up: 0 },
        MoveAction::StrafeLeft => Displacement { forward: 0, right: (-MOVE_SPEED) as i32, up: 0 },
        MoveAction::Rise => Displacement { forward: 0, right: 0, up: MOVE_SPEED },
        MoveAction::Sink => Displacement { forward: 0, right: 0, up: (-MOVE_SPEED) as i32 },
    }
}

/// What one key adds to the travel along an axis while it is held.
pub open spec fn push(held: Set<Key>, key: Key) -> int {
    if held.contains(key) {
        MOVE_SPEED as int
    } else {
        0
    }
}

/// The per-tick travel that a set of held keys asks for: each held movement
/// key adds one step along its own direction.
pub open spec fn keyboard_travel(held: Set<Key>) -> Displacement {
    Displacement {
        forward: (push(held, Key::W) - push(held, Key::S)) as i32,
        right: (push(held, Key::D) - push(held, Key::A)) as i32,
        up: (push(held, Key::E) + push(held, Key::Space) - push(held, Key::Q) - push(held, Key::Shift)) as i32,
    }
}

/// The distance along the view direction that `scroll` scroll units ask for.
pub open spec fn dolly_distance(scroll: int) -> int {
    saturate(scroll * ZOOM_SPEED)
}

/// `value` narrowed to 64 bits, stopping at the ends of the range.
fn saturate_wide(value: i128) -> (narrow: i64)
    ensures
        narrow == saturate(value as int),
{
    if value < i64::MIN as i128 {
        i64::MIN
    } else if value > i64::MAX as i128 {
        i64::MAX
    } else {
        value as i64
    }
}

/// The product of two 64-bit integers, which 128 bits always hold.
fn wide_product(a: i64, b: i64) -> (product: i128)
    ensures
        product == a * b,
{
    assert(-0x4000_0000_0000_0000_0000_0000_0000_0000 <= a * b <= 0x4000_0000_0000_0000_0000_0000_0000_0000)
        by (nonlinear_arith)
        requires
            -0x8000_0000_0000_0000 <= a <= 0x8000_0000_0000_0000,
            -0x8000_0000_0000_0000 <= b <= 0x8000_0000_0000_0000,
    ;
    a as i128 * b as i128
}

/// What `key` adds to the travel along an axis.
fn push_of(input: &InputState, key: Key) -> (speed: i32)
    ensures
        speed == push(input@.held, key),
{
    if input.is_held(key) {
        MOVE_SPEED
    } else {
        0
    }
}

/// Computes the per-tick travel for the keys that `input` holds.
pub fn travel_for(input: &InputState) -> (travel: Displacement)
    ensures
        travel == keyboard_travel(input@.held),
{
    let forward: i32 = push_of(input, Key::W) - push_of(input, Key::S);
    let right: i32 = push_of(input, Key::D) - push_of(input, Key::A);
    let rise: i32 = push_of(input, Key::E) + push_of(input, Key::Space);
    let sink: i32 = push_of(input, Key::Q) + push_of(input, Key::Shift);
    Displacement { forward, right, up: rise - sink }
}

/// Computes the distance along the view direction for `scroll` scroll units.
pub fn dolly_for(scroll: i64) -> (distance: i64)
    ensures
        distance == dolly_distance(scroll as int),
{
    saturate_wide(wide_product(scroll, ZOOM_SPEED))
}

/// Yaw and pitch of the view direction and the aspect of the picture. The
/// position and the field of view are not kept here: they take part in no
/// decision.
pub struct Camera {
    yaw: i64,
    pitch: i64,
    aspect: Aspect,
}

impl View for Camera {
    type V = CameraView;

    closed spec fn view(&self) -> CameraView {
        CameraView { yaw: self.yaw as int, pitch: self.pitch as int, aspect: self.aspect }
    }
}

impl Camera {
    /// The pitch is within its limit and the aspect has no zero in it.
    pub open spec fn wf(&self) -> bool {
        &&& pitch_in_range(self@.pitch)
        &&& self@.aspect.width > 0
        &&& self@.aspect.height > 0
    }

    /// A camera that looks along yaw 0 and pitch 0. `None` if the width or
    /// the height is zero.
    pub fn new(width: u32, height: u32) -> (camera: Option<Self>)
        ensures
            camera.is_some() == (width > 0 && height > 0),
            camera.is_some() ==> camera.unwrap().wf() && camera.unwrap()@ == (CameraView {
                yaw: 0,
                pitch: 0,
                aspect: Aspect { width, height },
            }),
    {
        if width > 0 && height > 0 {
            Some(Camera { yaw: 0, pitch: 0, aspect: Aspect { width, height } })
        } else {
            None
        }
    }

    /// The yaw in milliradians.
    pub fn yaw(&self) -> (yaw: i64)
        ensures
            yaw == self@.yaw,
    {
        self.yaw
    }

    /// The pitch in milliradians.
    pub fn pitch(&self) -> (pitch: i64)
        ensures
            pitch == self@.pitch,
    {
        self.pitch
    }

    /// The aspect.
    pub fn aspect(&self) -> (aspect: Aspect)
        ensures
            aspect == self@.aspect,
    {
        self.aspect
    }

    /// Turns the view by a drag of `dx` pixels to the right and `dy` pixels
    /// down.
    pub fn apply_drag(&mut self, dx: i64, dy: i64)
        requires
            old(self).wf(),
        ensures
            final(self).wf(),
            final(self)@ == dragged(old(self)@, dx as int, dy as int),
    {
        let yaw: i128 = self.yaw as i128 + wide_product(SENSITIVITY, dx);
        let pitch: i128 = self.pitch as i128 - wide_product(SENSITIVITY, dy);
        self.yaw = saturate_wide(yaw);
        self.pitch = if pitch < -PITCH_LIMIT as i128 {
            -PITCH_LIMIT
        } else if pitch > PITCH_LIMIT as i128 {
            PITCH_LIMIT
        } else {
            pitch as i64
        };
    }

    /// Sets the aspect from a width and a height, unless one of them is zero.
    pub fn set_aspect(&mut self, width: u32, height: u32) -> (changed: bool)
        requires
            old(self).wf(),
        ensures
            final(self).wf(),
            final(self)@ == with_aspect(old(self)@, width, height),
            changed == (width > 0 && height > 0),
    {
        if width > 0 && height > 0 {
            self.aspect = Aspect { width, height };
            true
        } else {
            false
        }
    }
}

/// A drag leaves the pitch within its limit, whatever it was before.
pub proof fn lemma_drag_keeps_pitch(v: CameraView, dx: int, dy: int)
    ensures
        pitch_in_range(dragged(v, dx, dy).pitch),
        dragged(v, dx, dy).aspect == v.aspect,
{
}

/// A pitch within its limit is strictly between a quarter turn down and a
/// quarter turn up, so the view direction is never vertical: a quarter turn
/// is more than 1570796 microradians.
pub proof fn lemma_pitch_off_vertical(pitch: int)
    requires
        pitch_in_range(pitch),
    ensures
        -1570796 < 1000 * pitch < 1570796,
{
}

/// After any run of drag steps the pitch is within its limit.
pub proof fn lemma_drags_keep_pitch(v: CameraView, steps: Seq<DragStep>)
    requires
        pitch_in_range(v.pitch),
    ensures
        pitch_in_range(dragged_by(v, steps).pitch),
    decreases steps.len(),
{
    if steps.len() > 0 {
        lemma_drags_keep_pitch(v, steps.drop_last());
    }
}

/// A drag that stays within the limit moves the pitch by exactly the
/// sensitivity times the vertical travel, upwards for a pointer that moves up.
pub proof fn lemma_drag_within_limit(v: CameraView, dx: int, dy: int)
    requires
        pitch_in_range(v.pitch - SENSITIVITY * dy),
        i64::MIN <= v.yaw + SENSITIVITY * dx <= i64::MAX,
    ensures
        dragged(v, dx, dy).yaw == v.yaw + SENSITIVITY * dx,
        dragged(v, dx, dy).pitch == v.pitch - SENSITIVITY * dy,
{
}

/// A movement key that goes down adds the step of the movement that the key
/// table binds it to, whatever else is held.
pub proof fn lemma_key_adds_its_step(held: Set<Key>, key: Key)
    requires
        !held.contains(key),
        key_action(key).is_some(),
    ensures
        keyboard_travel(held.insert(key)).forward == keyboard_travel(held).forward + action_step(
            key_action(key).unwrap(),
        ).forward,
        keyboard_travel(held.insert(key)).right == keyboard_travel(held).right + action_step(
            key_action(key).unwrap(),
        ).right,
        keyboard_travel(held.insert(key)).up == keyboard_travel(held).up + action_step(
            key_action(key).unwrap(),
        ).up,
{
}

/// Keys without a movement bound to them do not move the camera.
pub proof fn lemma_unbound_key_ignored(held: Set<Key>, key: Key)
    requires
        key_action(key).is_none(),
    ensures
        keyboard_travel(held.insert(key)) == keyboard_travel(held),
        keyboard_travel(held.remove(key)) == keyboard_travel(held),
{
}

} // verus!

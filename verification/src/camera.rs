//! Camera state and input rules.
//!
//! The camera holds a yaw, a pitch and a zoom, together with the per-tick
//! rates that held keys impose on them, the last seen pointer position and
//! an optional drag session. Angles are fixed-point millionths of a
//! half-turn; zoom factors are fixed-point millionths of the neutral
//! factor one. Pointer positions enter already warped by the arc tangent
//! of the normalized device coordinate (the aspect-corrected `y`), since
//! only that warped form feeds the drag formula.

use vstd::prelude::*;

use crate::fixed::{FP_ONE, clamp_i64, div_trunc, div_trunc_i128, sat_add, sat_narrow, mul_fp};

verus! {

/// Half a turn (the angle pi) in angle units.
pub const HALF_TURN: i64 = 1_000_000;

/// Per-tick angular step while a turn key is held: a step of about one
/// two-hundred-fortieth of a radian, a quarter radian per second at sixty
/// ticks a second.
pub const KEY_ANGLE_STEP: i64 = 1326;

/// Zoom factor applied each tick while the zoom-in key is held (0.99).
pub const ZOOM_IN_RATE: i64 = 990_000;

/// Zoom factor applied each tick while the zoom-out key is held (1.01).
pub const ZOOM_OUT_RATE: i64 = 1_010_000;

/// Gain of a line-style wheel step (0.08 per line).
pub const WHEEL_LINE_GAIN: i64 = 80_000;

/// Gain of a pixel-style wheel step (0.01 per pixel).
pub const WHEEL_PIXEL_GAIN: i64 = 10_000;

/// One of the six logical directions a key can be bound to.
#[derive(Clone, Copy, Debug, PartialEq, Eq, Structural)]
pub enum Direction {
    YawNeg,
    YawPos,
    PitchNeg,
    PitchPos,
    ZoomIn,
    ZoomOut,
}

/// A discrete input event, as the window system hands them over.
///
/// Pointer coordinates and wheel deltas are fixed-point millionths; the
/// pointer position is the arc tangent of the normalized device
/// coordinate, expressed in angle units.
#[derive(Clone, Copy, Debug)]
pub enum InputEvent {
    KeyDown(Direction),
    KeyUp(Direction),
    PointerDown,
    PointerUp,
    PointerMove { x: i64, y: i64 },
    WheelLines { delta: i64 },
    WheelPixels { delta: i64 },
    FocusLost,
}

/// What a drag session remembers from the moment the button went down.
#[derive(Clone, Copy, Debug)]
pub struct DragAnchor {
    pub pointer_x: i64,
    pub pointer_y: i64,
    pub yaw: i64,
    pub pitch: i64,
}

/// The full camera state owned by the render loop.
#[derive(Clone, Copy, Debug)]
pub struct CameraState {
    pub yaw: i64,
    pub pitch: i64,
    pub zoom: i64,
    pub yaw_rate: i64,
    pub pitch_rate: i64,
    pub zoom_rate: i64,
    pub pointer_x: i64,
    pub pointer_y: i64,
    pub drag: Option<DragAnchor>,
}

/// The drag formula: angular distance between the anchored and the current
/// warped pointer coordinate, divided by the zoom, added to the anchored
/// angle.
pub open spec fn drag_angle(anchor_pos: int, cur_pos: int, zoom: int, anchor_angle: int) -> int
    recommends
        zoom != 0,
{
    clamp_i64(div_trunc((anchor_pos - cur_pos) * (FP_ONE as int), zoom) + anchor_angle)
}

/// The zoom factor a wheel step of the given gain multiplies into the zoom.
pub open spec fn wheel_factor(delta: int, gain: int) -> int {
    clamp_i64((FP_ONE as int) + clamp_i64(div_trunc(delta * gain, FP_ONE as int)))
}

/// The zoom after a wheel step.
pub open spec fn wheel_zoom(zoom: int, delta: int, gain: int) -> int {
    clamp_i64(div_trunc(zoom * wheel_factor(delta, gain), FP_ONE as int))
}

/// The state after a key event: the bound rate is set to its active
/// constant on a press and back to its neutral value on a release.
/// Assignment makes repeated identical events idempotent.
pub open spec fn step_key(c: CameraState, d: Direction, pressed: bool) -> CameraState {
    match d {
        Direction::YawNeg => CameraState { yaw_rate: if pressed { (-KEY_ANGLE_STEP) as i64 } else { 0 }, ..c },
        Direction::YawPos => CameraState { yaw_rate: if pressed { KEY_ANGLE_STEP } else { 0 }, ..c },
        Direction::PitchNeg => CameraState { pitch_rate: if pressed { (-KEY_ANGLE_STEP) as i64 } else { 0 }, ..c },
        Direction::PitchPos => CameraState { pitch_rate: if pressed { KEY_ANGLE_STEP } else { 0 }, ..c },
        Direction::ZoomIn => CameraState { zoom_rate: if pressed { ZOOM_IN_RATE } else { FP_ONE }, ..c },
        Direction::ZoomOut => CameraState { zoom_rate: if pressed { ZOOM_OUT_RATE } else { FP_ONE }, ..c },
    }
}

/// The state after a pointer move: the stored pointer position is always
/// updated; while a drag session is open and the zoom is nonzero, yaw and
/// pitch are recomputed from the anchor, never accumulated.
pub open spec fn step_pointer_move(c: CameraState, x: i64, y: i64) -> CameraState {
    match c.drag {
        Option::None => CameraState { pointer_x: x, pointer_y: y, ..c },
        Option::Some(a) => {
            if c.zoom != 0 {
                CameraState {
                    pointer_x: x,
                    pointer_y: y,
                    yaw: drag_angle(a.pointer_x as int, x as int, c.zoom as int, a.yaw as int) as i64,
                    pitch: drag_angle(y as int, a.pointer_y as int, c.zoom as int, a.pitch as int) as i64,
                    ..c
                }
            } else {
                CameraState { pointer_x: x, pointer_y: y, ..c }
            }
        },
    }
}

/// The state after one input event.
pub open spec fn step(c: CameraState, e: InputEvent) -> CameraState {
    match e {
        InputEvent::KeyDown(d) => step_key(c, d, true),
        InputEvent::KeyUp(d) => step_key(c, d, false),
        InputEvent::PointerDown => CameraState {
            drag: Option::Some(
                DragAnchor {
                    pointer_x: c.pointer_x,
                    pointer_y: c.pointer_y,
                    yaw: c.yaw,
                    pitch: c.pitch,
                },
            ),
            ..c
        },
        InputEvent::PointerUp => CameraState { drag: Option::None, ..c },
        InputEvent::FocusLost => CameraState { drag: Option::None, ..c },
        InputEvent::PointerMove { x, y } => step_pointer_move(c, x, y),
        InputEvent::WheelLines { delta } => CameraState {
            zoom: wheel_zoom(c.zoom as int, delta as int, WHEEL_LINE_GAIN as int) as i64,
            ..c
        },
        InputEvent::WheelPixels { delta } => CameraState {
            zoom: wheel_zoom(c.zoom as int, delta as int, WHEEL_PIXEL_GAIN as int) as i64,
            ..c
        },
    }
}

/// Whether the event asks for an immediate redraw, independent of the
/// per-tick rate check: pointer motion and wheel input do, the rest rely
/// on the rates.
pub open spec fn event_requests_redraw(e: InputEvent) -> bool {
    match e {
        InputEvent::PointerMove { .. } => true,
        InputEvent::WheelLines { .. } => true,
        InputEvent::WheelPixels { .. } => true,
        _ => false,
    }
}

/// Idle means every rate sits at its neutral value; an idle camera needs
/// no redraw until the next input event.
pub open spec fn spec_is_idle(c: CameraState) -> bool {
    c.yaw_rate == 0 && c.pitch_rate == 0 && c.zoom_rate == FP_ONE
}

/// The state after one tick: rates are integrated into the angles and the
/// zoom; nothing else moves.
pub open spec fn step_tick(c: CameraState) -> CameraState {
    CameraState {
        yaw: clamp_i64(c.yaw + c.yaw_rate) as i64,
        pitch: clamp_i64(c.pitch + c.pitch_rate) as i64,
        zoom: clamp_i64(div_trunc(c.zoom * c.zoom_rate, FP_ONE as int)) as i64,
        ..c
    }
}

impl CameraState {
    /// A camera at rest: looking straight ahead, neutral zoom, no rates,
    /// no drag session.
    pub fn new() -> (c: CameraState)
        ensures
            c.yaw == 0,
            c.pitch == 0,
            c.zoom == FP_ONE,
            c.yaw_rate == 0,
            c.pitch_rate == 0,
            c.zoom_rate == FP_ONE,
            c.pointer_x == 0,
            c.pointer_y == 0,
            c.drag is None,
            spec_is_idle(c),
    {
        CameraState {
            yaw: 0,
            pitch: 0,
            zoom: FP_ONE,
            yaw_rate: 0,
            pitch_rate: 0,
            zoom_rate: FP_ONE,
            pointer_x: 0,
            pointer_y: 0,
            drag: Option::None,
        }
    }

    /// Whether every rate is neutral.
    pub fn is_idle(&self) -> (r: bool)
        ensures
            r == spec_is_idle(*self),
    {
        self.yaw_rate == 0 && self.pitch_rate == 0 && self.zoom_rate == FP_ONE
    }
}

/// Applies one input event to the camera and reports whether the event
/// itself asks for a redraw.
pub fn handle_event(cam: &mut CameraState, e: InputEvent) -> (redraw: bool)
    ensures
        *final(cam) == step(*old(cam), e),
        redraw == event_requests_redraw(e),
{
    match e {
        InputEvent::KeyDown(d) => {
            apply_key(cam, d, true);
            false
        },
        InputEvent::KeyUp(d) => {
            apply_key(cam, d, false);
            false
        },
        InputEvent::PointerDown => {
            cam.drag = Option::Some(
                DragAnchor {
                    pointer_x: cam.pointer_x,
                    pointer_y: cam.pointer_y,
                    yaw: cam.yaw,
                    pitch: cam.pitch,
                },
            );
            false
        },
        InputEvent::PointerUp => {
            cam.drag = Option::None;
            false
        },
        InputEvent::FocusLost => {
            cam.drag = Option::None;
            false
        },
        InputEvent::PointerMove { x, y } => {
            if let Option::Some(a) = cam.drag {
                if cam.zoom != 0 {
                    cam.yaw = drag_angle_exec(a.pointer_x, x, cam.zoom, a.yaw);
                    cam.pitch = drag_angle_exec(y, a.pointer_y, cam.zoom, a.pitch);
                }
            }
            cam.pointer_x = x;
            cam.pointer_y = y;
            true
        },
        InputEvent::WheelLines { delta } => {
            let factor = sat_add(FP_ONE, mul_fp(delta, WHEEL_LINE_GAIN));
            cam.zoom = mul_fp(cam.zoom, factor);
            true
        },
        InputEvent::WheelPixels { delta } => {
            let factor = sat_add(FP_ONE, mul_fp(delta, WHEEL_PIXEL_GAIN));
            cam.zoom = mul_fp(cam.zoom, factor);
            true
        },
    }
}

/// Sets the rate a key is bound to.
fn apply_key(cam: &mut CameraState, d: Direction, pressed: bool)
    ensures
        *final(cam) == step_key(*old(cam), d, pressed),
{
    match d {
        Direction::YawNeg => {
            cam.yaw_rate = if pressed { -KEY_ANGLE_STEP } else { 0 };
        },
        Direction::YawPos => {
            cam.yaw_rate = if pressed { KEY_ANGLE_STEP } else { 0 };
        },
        Direction::PitchNeg => {
            cam.pitch_rate = if pressed { -KEY_ANGLE_STEP } else { 0 };
        },
        Direction::PitchPos => {
            cam.pitch_rate = if pressed { KEY_ANGLE_STEP } else { 0 };
        },
        Direction::ZoomIn => {
            cam.zoom_rate = if pressed { ZOOM_IN_RATE } else { FP_ONE };
        },
        Direction::ZoomOut => {
            cam.zoom_rate = if pressed { ZOOM_OUT_RATE } else { FP_ONE };
        },
    }
}

/// The drag formula on machine integers.
fn drag_angle_exec(anchor_pos: i64, cur_pos: i64, zoom: i64, anchor_angle: i64) -> (r: i64)
    requires
        zoom != 0,
    ensures
        r as int == drag_angle(anchor_pos as int, cur_pos as int, zoom as int, anchor_angle as int),
{
    let diff: i128 = (anchor_pos as i128) - (cur_pos as i128);
    let n: i128 = diff * 1_000_000;
    let q: i128 = div_trunc_i128(n, zoom as i128);
    let s: i128 = q + (anchor_angle as i128);
    proof {
        crate::fixed::lemma_div_trunc_in_range(diff * 1_000_000, zoom as int);
    }
    sat_narrow(s)
}

/// Advances the camera by one tick and reports whether the frame must be
/// redrawn: exactly when some rate was away from neutral.
pub fn tick(cam: &mut CameraState) -> (redraw: bool)
    ensures
        *final(cam) == step_tick(*old(cam)),
        redraw == !spec_is_idle(*old(cam)),
{
    let idle = cam.is_idle();
    cam.yaw = sat_add(cam.yaw, cam.yaw_rate);
    cam.pitch = sat_add(cam.pitch, cam.pitch_rate);
    cam.zoom = mul_fp(cam.zoom, cam.zoom_rate);
    !idle
}

/// Opening a drag session and closing it at once, with no pointer motion
/// between, leaves yaw and pitch exactly as they were, and leaves no
/// session behind.
pub proof fn lemma_drag_open_close(c: CameraState)
    ensures
        step(step(c, InputEvent::PointerDown), InputEvent::PointerUp).yaw == c.yaw,
        step(step(c, InputEvent::PointerDown), InputEvent::PointerUp).pitch == c.pitch,
        step(step(c, InputEvent::PointerDown), InputEvent::PointerUp).zoom == c.zoom,
        (step(step(c, InputEvent::PointerDown), InputEvent::PointerUp).drag is None),
{
}

/// A pointer move while no drag session is open changes the stored
/// pointer position and nothing else.
pub proof fn lemma_move_without_session(c: CameraState, x: i64, y: i64)
    requires
        c.drag is None,
    ensures
        step(c, InputEvent::PointerMove { x, y }) == (CameraState { pointer_x: x, pointer_y: y, ..c }),
{
}

/// Loss of input focus closes the drag session without touching yaw,
/// pitch or zoom.
pub proof fn lemma_focus_lost_closes_session(c: CameraState)
    ensures
        step(c, InputEvent::FocusLost) == (CameraState { drag: Option::None, ..c }),
{
}

} // verus!

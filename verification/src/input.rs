//! The input resolver: raw key state or on-screen touch zones become the
//! one normalized command set both control schemes share. The schemes are
//! mutually exclusive for a session; under the touch scheme firing is
//! automatic every cooldown interval, a deliberate asymmetry.

use vstd::prelude::*;

verus! {

use crate::geom::{div_trunc, Vec2};
use crate::{MAX_EXTENT, ROT_STEP_KEYBOARD, ROT_STEP_TOUCH, THRUST_KEYBOARD, THRUST_TOUCH};

/// Which control scheme the session locked onto at its first input.
#[derive(Clone, Copy, PartialEq, Eq, Structural, Debug)]
pub enum ControlMode {
    Keyboard,
    Touch,
}

/// One frame's raw input, gathered by the host: held keys, edge-triggered
/// presses, and the active touch points in milli-unit screen coordinates.
pub struct FrameInput {
    pub left_held: bool,
    pub right_held: bool,
    pub thrust_held: bool,
    pub fire_held: bool,
    pub pause_pressed: bool,
    pub confirm_pressed: bool,
    pub touch_started: bool,
    pub touches: Vec<Vec2>,
}

/// The engine accepts up to 64 simultaneous touch points.
pub open spec fn input_wf(inp: FrameInput) -> bool {
    inp.touches@.len() <= 64
}

/// The normalized command set one frame produces.
#[derive(Clone, Copy, PartialEq, Eq, Structural, Debug)]
pub struct Commands {
    pub rot_delta: i32,
    pub thrust: bool,
    pub thrust_mag: i64,
    pub fire: bool,
    pub pause: bool,
}

/// The on-screen zones of the touch scheme, tested in a fixed order; the
/// first containing rectangle wins.
#[derive(Clone, Copy, PartialEq, Eq, Structural, Debug)]
pub enum TouchZone {
    RotateLeft,
    RotateRight,
    Thrust,
    Pause,
    Outside,
}

/// Closed-rectangle membership: both edges count as inside.
pub open spec fn in_rect(p: Vec2, x0: int, y0: int, wr: int, hr: int) -> bool {
    x0 <= p.x <= x0 + wr && y0 <= p.y <= y0 + hr
}

/// Which zone a point falls in, for a `w` by `h` screen: a button strip of
/// a fifth of the width sits at the bottom; rotate-left and rotate-right
/// take a quarter-width each from the left, thrust the right half, and the
/// pause rectangle starts at an eighth of the width. The rectangles are
/// tested in that order, so overlaps resolve to the earlier zone.
pub open spec fn zone_of(p: Vec2, w: int, h: int) -> TouchZone {
    let btn = w / 5;
    let rot_w = w / 4;
    if in_rect(p, 0, h - btn, rot_w, btn) {
        TouchZone::RotateLeft
    } else if in_rect(p, rot_w, h - btn, rot_w, btn) {
        TouchZone::RotateRight
    } else if in_rect(p, w / 2, h - btn, w / 2, btn) {
        TouchZone::Thrust
    } else if in_rect(p, w / 8, h - btn, w / 6, btn) {
        TouchZone::Pause
    } else {
        TouchZone::Outside
    }
}

/// Some active point falls in the zone.
pub open spec fn touch_in_zone(pts: Seq<Vec2>, w: int, h: int, z: TouchZone) -> bool {
    exists|i: int| 0 <= i < pts.len() && zone_of(#[trigger] pts[i], w, h) == z
}

/// The rotation the touch points command together: every point in a rotate
/// zone contributes its step, cumulatively.
pub open spec fn touch_rot_delta(pts: Seq<Vec2>, w: int, h: int) -> int
    decreases pts.len(),
{
    if pts.len() == 0 {
        0
    } else {
        touch_rot_delta(pts.drop_last(), w, h) + (if zone_of(pts.last(), w, h)
            == TouchZone::RotateLeft {
            -(ROT_STEP_TOUCH as int)
        } else if zone_of(pts.last(), w, h) == TouchZone::RotateRight {
            ROT_STEP_TOUCH as int
        } else {
            0
        })
    }
}

/// The commanded rotation grows at most one step per point.
pub proof fn lemma_touch_rot_delta_bound(pts: Seq<Vec2>, w: int, h: int)
    ensures
        -(ROT_STEP_TOUCH as int) * pts.len() <= touch_rot_delta(pts, w, h) <= (
        ROT_STEP_TOUCH as int) * pts.len(),
    decreases pts.len(),
{
    if pts.len() > 0 {
        lemma_touch_rot_delta_bound(pts.drop_last(), w, h);
    }
}

/// What the keyboard scheme commands: five degrees of turn per held rotate
/// key, thrust and fire while held, pause on the key's edge.
pub open spec fn keyboard_commands(inp: FrameInput) -> Commands {
    Commands {
        rot_delta: ((if inp.left_held {
            -(ROT_STEP_KEYBOARD as int)
        } else {
            0
        }) + (if inp.right_held {
            ROT_STEP_KEYBOARD as int
        } else {
            0
        })) as i32,
        thrust: inp.thrust_held,
        thrust_mag: THRUST_KEYBOARD,
        fire: inp.fire_held,
        pause: inp.pause_pressed,
    }
}

/// What the touch scheme commands: each point applies its zone, thrust and
/// pause as booleans, rotation cumulatively; fire is always wanted
/// (auto-fire), the cooldown alone limits it.
pub open spec fn touch_commands(inp: FrameInput, w: int, h: int) -> Commands {
    Commands {
        rot_delta: touch_rot_delta(inp.touches@, w, h) as i32,
        thrust: touch_in_zone(inp.touches@, w, h, TouchZone::Thrust),
        thrust_mag: THRUST_TOUCH,
        fire: true,
        pause: touch_in_zone(inp.touches@, w, h, TouchZone::Pause),
    }
}

/// The commands a frame's raw input produces under the active scheme.
pub open spec fn commands_spec(mode: ControlMode, inp: FrameInput, w: int, h: int) -> Commands {
    match mode {
        ControlMode::Keyboard => keyboard_commands(inp),
        ControlMode::Touch => touch_commands(inp, w, h),
    }
}

/// Which zone a touch point falls in, executable.
fn zone_hit(p: Vec2, w: i64, h: i64) -> (z: TouchZone)
    requires
        0 < w <= MAX_EXTENT,
        0 < h <= MAX_EXTENT,
    ensures
        z == zone_of(p, w as int, h as int),
{
    let btn = div_trunc(w, 5);
    let rot_w = div_trunc(w, 4);
    let half = div_trunc(w, 2);
    let eighth = div_trunc(w, 8);
    let sixth = div_trunc(w, 6);
    if 0 <= p.x && p.x <= rot_w && h - btn <= p.y && p.y <= h {
        TouchZone::RotateLeft
    } else if rot_w <= p.x && p.x <= rot_w + rot_w && h - btn <= p.y && p.y <= h {
        TouchZone::RotateRight
    } else if half <= p.x && p.x <= half + half && h - btn <= p.y && p.y <= h {
        TouchZone::Thrust
    } else if eighth <= p.x && p.x <= eighth + sixth && h - btn <= p.y && p.y <= h {
        TouchZone::Pause
    } else {
        TouchZone::Outside
    }
}

/// Resolve the keyboard scheme.
pub fn resolve_keyboard(inp: &FrameInput) -> (c: Commands)
    ensures
        c == keyboard_commands(*inp),
{
    let mut rot_delta: i32 = 0;
    if inp.left_held {
        rot_delta = rot_delta - ROT_STEP_KEYBOARD;
    }
    if inp.right_held {
        rot_delta = rot_delta + ROT_STEP_KEYBOARD;
    }
    Commands {
        rot_delta,
        thrust: inp.thrust_held,
        thrust_mag: THRUST_KEYBOARD,
        fire: inp.fire_held,
        pause: inp.pause_pressed,
    }
}

/// Resolve the touch scheme over every active point.
#[verifier::loop_isolation(false)]
pub fn resolve_touch(inp: &FrameInput, w: i64, h: i64) -> (c: Commands)
    requires
        input_wf(*inp),
        0 < w <= MAX_EXTENT,
        0 < h <= MAX_EXTENT,
    ensures
        c == touch_commands(*inp, w as int, h as int),
{
    let n = inp.touches.len();
    let mut rot_delta: i32 = 0;
    let mut thrust = false;
    let mut pause = false;
    let mut i: usize = 0;
    while i < n
        invariant
            i <= n,
            n == inp.touches@.len(),
            rot_delta == touch_rot_delta(inp.touches@.take(i as int), w as int, h as int),
            -192 <= rot_delta <= 192,
            thrust == touch_in_zone(inp.touches@.take(i as int), w as int, h as int,
                TouchZone::Thrust),
            pause == touch_in_zone(inp.touches@.take(i as int), w as int, h as int,
                TouchZone::Pause),
        decreases n - i,
    {
        let p = inp.touches[i];
        let z = zone_hit(p, w, h);
        proof {
            let pre = inp.touches@.take(i as int);
            let cur = inp.touches@.take(i as int + 1);
            assert(cur.drop_last() =~= pre);
            assert(cur.last() == inp.touches@[i as int]);
            lemma_touch_rot_delta_bound(pre, w as int, h as int);
            assert(forall|k: int| 0 <= k < pre.len() ==> #[trigger] pre[k] == cur[k]);
        }
        match z {
            TouchZone::RotateLeft => {
                rot_delta = rot_delta - ROT_STEP_TOUCH;
            },
            TouchZone::RotateRight => {
                rot_delta = rot_delta + ROT_STEP_TOUCH;
            },
            TouchZone::Thrust => {
                thrust = true;
            },
            TouchZone::Pause => {
                pause = true;
            },
            TouchZone::Outside => {
            },
        }
        proof {
            let pre = inp.touches@.take(i as int);
            let cur = inp.touches@.take(i as int + 1);
            if thrust {
                assert(touch_in_zone(cur, w as int, h as int, TouchZone::Thrust)) by {
                    if touch_in_zone(pre, w as int, h as int, TouchZone::Thrust) {
                        let k = choose|k: int|
                            0 <= k < pre.len() && zone_of(#[trigger] pre[k], w as int, h as int)
                                == TouchZone::Thrust;
                        assert(zone_of(cur[k], w as int, h as int) == TouchZone::Thrust);
                    } else {
                        assert(zone_of(cur[i as int], w as int, h as int) == TouchZone::Thrust);
                    }
                }
            } else {
                assert(!touch_in_zone(cur, w as int, h as int, TouchZone::Thrust)) by {
                    assert(forall|k: int|
                        0 <= k < cur.len() ==> zone_of(#[trigger] cur[k], w as int, h as int)
                            != TouchZone::Thrust);
                }
            }
            if pause {
                assert(touch_in_zone(cur, w as int, h as int, TouchZone::Pause)) by {
                    if touch_in_zone(pre, w as int, h as int, TouchZone::Pause) {
                        let k = choose|k: int|
                            0 <= k < pre.len() && zone_of(#[trigger] pre[k], w as int, h as int)
                                == TouchZone::Pause;
                        assert(zone_of(cur[k], w as int, h as int) == TouchZone::Pause);
                    } else {
                        assert(zone_of(cur[i as int], w as int, h as int) == TouchZone::Pause);
                    }
                }
            } else {
                assert(!touch_in_zone(cur, w as int, h as int, TouchZone::Pause)) by {
                    assert(forall|k: int|
                        0 <= k < cur.len() ==> zone_of(#[trigger] cur[k], w as int, h as int)
                            != TouchZone::Pause);
                }
            }
        }
        i = i + 1;
    }
    proof {
        assert(inp.touches@.take(n as int) =~= inp.touches@);
    }
    Commands { rot_delta, thrust, thrust_mag: THRUST_TOUCH, fire: true, pause }
}

/// Resolve one frame's raw input under the active control scheme.
pub fn resolve_input(mode: ControlMode, inp: &FrameInput, w: i64, h: i64) -> (c: Commands)
    requires
        input_wf(*inp),
        0 < w <= MAX_EXTENT,
        0 < h <= MAX_EXTENT,
    ensures
        c == commands_spec(mode, *inp, w as int, h as int),
        -192 <= c.rot_delta <= 192,
        0 <= c.thrust_mag <= 10_000,
{
    match mode {
        ControlMode::Keyboard => resolve_keyboard(inp),
        ControlMode::Touch => {
            proof {
                lemma_touch_rot_delta_bound(inp.touches@, w as int, h as int);
            }
            resolve_touch(inp, w, h)
        },
    }
}

} // verus!

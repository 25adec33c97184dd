//! The per-session interaction state: the two monitors' placements and the
//! drag gesture state machine that the frame loop drives.
//!
//! Each frame the host loop hands the current pointer position and the
//! press/release edges to `frame_tick`, which hit-tests, starts or ends a
//! drag, and accumulates pointer deltas into the dragged monitor's offset.
//! The transition is specified as a whole by `spec_frame_tick`, built from
//! one spec function per event.

use vstd::prelude::*;

use crate::scene::COORD_MAX;
use crate::scene::Placement;
use crate::scene::Point;
use crate::scene::Rgba;
use crate::scene::Rotation;
use crate::scene::VisualSize;
use crate::scene::ROT_ONE;
use crate::scene::contains;
use crate::scene::point_ok;
use crate::scene::rect_contains;

verus! {

/// Identifies one of the two monitors.
#[derive(Clone, Copy, Debug, PartialEq, Eq, Structural)]
pub enum MonitorId {
    A,
    B,
}

/// The drag gesture state: which monitor, if any, is being dragged, and the
/// pointer position the next delta is measured from.
#[derive(Clone, Copy, Debug, PartialEq, Eq, Structural)]
pub struct DragSession {
    pub active_target: Option<MonitorId>,
    pub last_pointer: Point,
}

/// Everything the session keeps across frames: both placements and the drag
/// state.
#[derive(Clone, Copy, Debug, PartialEq, Eq, Structural)]
pub struct SessionState {
    pub monitor_a: Placement,
    pub monitor_b: Placement,
    pub drag: DragSession,
}

/// What the host loop reads from the input device each frame: the pointer
/// position and whether the primary button was just pressed or released.
#[derive(Clone, Copy, Debug, PartialEq, Eq, Structural)]
pub struct FrameInput {
    pub pointer: Point,
    pub pressed: bool,
    pub released: bool,
}

/// The default placement offset of monitor A: left of the scene center.
pub open spec fn default_offset_a() -> Point {
    Point { x: -150i64, y: 0i64 }
}

/// The default placement offset of monitor B: right of the scene center.
pub open spec fn default_offset_b() -> Point {
    Point { x: 150i64, y: 0i64 }
}

/// The zero rotation.
pub open spec fn zero_rotation() -> Rotation {
    Rotation { cos_q: ROT_ONE as i64, sin_q: 0i64 }
}

impl SessionState {
    /// All held coordinates are in range, so a frame's arithmetic stays exact.
    pub open spec fn is_bounded(self) -> bool {
        &&& point_ok(self.monitor_a.offset)
        &&& point_ok(self.monitor_b.offset)
        &&& point_ok(self.drag.last_pointer)
        &&& self.monitor_a.rotation.is_bounded()
        &&& self.monitor_b.rotation.is_bounded()
    }

    /// The initial session: monitors in the symmetric default layout with
    /// their default tints, no drag active.
    pub fn new() -> (s: SessionState)
        ensures
            s.monitor_a.offset == default_offset_a(),
            s.monitor_b.offset == default_offset_b(),
            s.monitor_a.rotation == zero_rotation(),
            s.monitor_b.rotation == zero_rotation(),
            s.monitor_a.tint == (Rgba { red: 100u8, green: 150u8, blue: 200u8, alpha: 255u8 }),
            s.monitor_b.tint == (Rgba { red: 150u8, green: 100u8, blue: 200u8, alpha: 255u8 }),
            s.drag.active_target is None,
            s.drag.last_pointer == (Point { x: 0i64, y: 0i64 }),
            s.is_bounded(),
    {
        SessionState {
            monitor_a: Placement {
                offset: Point { x: -150, y: 0 },
                rotation: Rotation { cos_q: ROT_ONE, sin_q: 0 },
                tint: Rgba { red: 100, green: 150, blue: 200, alpha: 255 },
            },
            monitor_b: Placement {
                offset: Point { x: 150, y: 0 },
                rotation: Rotation { cos_q: ROT_ONE, sin_q: 0 },
                tint: Rgba { red: 150, green: 100, blue: 200, alpha: 255 },
            },
            drag: DragSession { active_target: None, last_pointer: Point { x: 0, y: 0 } },
        }
    }
}

/// Which monitor a press at `pointer` lands on: monitor A is checked first,
/// so where the two overlap, A takes priority.
pub open spec fn press_target(
    s: SessionState,
    pointer: Point,
    vis_a: VisualSize,
    vis_b: VisualSize,
    origin: Point,
) -> Option<MonitorId> {
    if rect_contains(pointer, vis_a, s.monitor_a, origin) {
        Some(MonitorId::A)
    } else if rect_contains(pointer, vis_b, s.monitor_b, origin) {
        Some(MonitorId::B)
    } else {
        None
    }
}

/// The state after a press: a new drag may only start when none is active,
/// and the delta base is reset to the pointer either way. An active drag is
/// left untouched.
pub open spec fn spec_after_press(
    s: SessionState,
    pointer: Point,
    vis_a: VisualSize,
    vis_b: VisualSize,
    origin: Point,
) -> SessionState {
    if s.drag.active_target is None {
        SessionState {
            drag: DragSession {
                active_target: press_target(s, pointer, vis_a, vis_b, origin),
                last_pointer: pointer,
            },
            ..s
        }
    } else {
        s
    }
}

/// The state after a release: whatever was happening, no drag is active.
pub open spec fn spec_after_release(s: SessionState) -> SessionState {
    SessionState { drag: DragSession { active_target: None, ..s.drag }, ..s }
}

/// The state after the frame's drag movement: while a drag is active, the
/// dragged monitor's offset accumulates the pointer's delta since the last
/// frame and the delta base moves to the pointer; otherwise nothing changes.
pub open spec fn spec_after_drag_move(s: SessionState, pointer: Point) -> SessionState {
    match s.drag.active_target {
        Option::None => s,
        Option::Some(id) => {
            let dx = pointer.x - s.drag.last_pointer.x;
            let dy = pointer.y - s.drag.last_pointer.y;
            let moved = match id {
                MonitorId::A => SessionState {
                    monitor_a: Placement {
                        offset: Point {
                            x: (s.monitor_a.offset.x + dx) as i64,
                            y: (s.monitor_a.offset.y + dy) as i64,
                        },
                        ..s.monitor_a
                    },
                    ..s
                },
                MonitorId::B => SessionState {
                    monitor_b: Placement {
                        offset: Point {
                            x: (s.monitor_b.offset.x + dx) as i64,
                            y: (s.monitor_b.offset.y + dy) as i64,
                        },
                        ..s.monitor_b
                    },
                    ..s
                },
            };
            SessionState { drag: DragSession { last_pointer: pointer, ..moved.drag }, ..moved }
        },
    }
}

/// One whole frame: the press edge is handled first, then the release edge,
/// then the drag movement of whatever drag is active after both.
pub open spec fn spec_frame_tick(
    s: SessionState,
    input: FrameInput,
    vis_a: VisualSize,
    vis_b: VisualSize,
    origin: Point,
) -> SessionState {
    let s1 = if input.pressed {
        spec_after_press(s, input.pointer, vis_a, vis_b, origin)
    } else {
        s
    };
    let s2 = if input.released {
        spec_after_release(s1)
    } else {
        s1
    };
    spec_after_drag_move(s2, input.pointer)
}

/// Advances the session by one frame of input, hit-testing the pointer
/// against both monitors' current geometry.
pub fn frame_tick(
    s: &mut SessionState,
    input: FrameInput,
    vis_a: VisualSize,
    vis_b: VisualSize,
    origin: Point,
)
    requires
        old(s).is_bounded(),
        point_ok(input.pointer),
        point_ok(origin),
        vis_a.is_bounded(),
        vis_b.is_bounded(),
    ensures
        *final(s) == spec_frame_tick(*old(s), input, vis_a, vis_b, origin),
{
    if input.pressed && s.drag.active_target.is_none() {
        if contains(input.pointer, vis_a, &s.monitor_a, origin) {
            s.drag.active_target = Some(MonitorId::A);
        } else if contains(input.pointer, vis_b, &s.monitor_b, origin) {
            s.drag.active_target = Some(MonitorId::B);
        }
        s.drag.last_pointer = input.pointer;
    }
    if input.released {
        s.drag.active_target = None;
    }
    match s.drag.active_target {
        None => {},
        Some(id) => {
            let dx = input.pointer.x - s.drag.last_pointer.x;
            let dy = input.pointer.y - s.drag.last_pointer.y;
            match id {
                MonitorId::A => {
                    s.monitor_a.offset.x = s.monitor_a.offset.x + dx;
                    s.monitor_a.offset.y = s.monitor_a.offset.y + dy;
                },
                MonitorId::B => {
                    s.monitor_b.offset.x = s.monitor_b.offset.x + dx;
                    s.monitor_b.offset.y = s.monitor_b.offset.y + dy;
                },
            }
            s.drag.last_pointer = input.pointer;
        },
    }
}

/// The placements after a reset: both monitors back at the symmetric default
/// offsets with zero rotation; tints and the drag state are kept.
pub open spec fn spec_reset(s: SessionState) -> SessionState {
    SessionState {
        monitor_a: Placement {
            offset: default_offset_a(),
            rotation: zero_rotation(),
            ..s.monitor_a
        },
        monitor_b: Placement {
            offset: default_offset_b(),
            rotation: zero_rotation(),
            ..s.monitor_b
        },
        ..s
    }
}

/// Restores both monitors' offsets to the symmetric default layout and their
/// rotations to zero.
pub fn reset_positions(s: &mut SessionState)
    ensures
        *final(s) == spec_reset(*old(s)),
{
    s.monitor_a.offset = Point { x: -150, y: 0 };
    s.monitor_b.offset = Point { x: 150, y: 0 };
    s.monitor_a.rotation = Rotation { cos_q: ROT_ONE, sin_q: 0 };
    s.monitor_b.rotation = Rotation { cos_q: ROT_ONE, sin_q: 0 };
}

/// Resetting twice in a row yields the same state as resetting once.
pub proof fn lemma_reset_idempotent(s: SessionState)
    ensures
        spec_reset(spec_reset(s)) == spec_reset(s),
{
}

/// Drag exclusivity: a press while monitor B is already being dragged leaves
/// B as the active target — a new drag cannot steal an active one.
pub proof fn lemma_drag_exclusivity(
    s: SessionState,
    input: FrameInput,
    vis_a: VisualSize,
    vis_b: VisualSize,
    origin: Point,
)
    requires
        s.drag.active_target == Some(MonitorId::B),
        input.pressed,
        !input.released,
    ensures
        spec_frame_tick(s, input, vis_a, vis_b, origin).drag.active_target == Some(MonitorId::B),
{
}

} // verus!

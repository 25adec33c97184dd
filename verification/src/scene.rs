//! The scene geometry engine: mapping a monitor's physical size and placement
//! into scene-space geometry, and hit-testing points against it.
//!
//! Scene coordinates are integers (surface pixels). A rotation is carried as
//! a cosine/sine pair scaled by `ROT_ONE`, so rotating is exact integer
//! arithmetic: rotated coordinates come out scaled by `ROT_ONE`, and the
//! containment test compares them against the half-extents scaled the same
//! way. No division is involved, so the contracts are exact.

use vstd::prelude::*;

verus! {

/// The fixed-point unit of the rotation pair: a cosine or sine of 1 is
/// carried as `ROT_ONE`. The unit is divisible by 5, 15 and 17, so the
/// rotations of Pythagorean triples (a 3-4-5 triangle's angle, among others)
/// lie exactly on the fixed-point unit circle, not only the quarter turns.
pub const ROT_ONE: i64 = 65535;

/// The largest coordinate magnitude the scene functions accept; generous for
/// any drawing surface while keeping every intermediate product within `i64`.
pub const COORD_MAX: i64 = 0x10000000000;

/// A point or displacement vector in scene coordinates.
#[derive(Clone, Copy, Debug, PartialEq, Eq, Structural)]
pub struct Point {
    pub x: i64,
    pub y: i64,
}

/// A rotation angle, carried as its cosine and sine scaled by `ROT_ONE`.
#[derive(Clone, Copy, Debug, PartialEq, Eq, Structural)]
pub struct Rotation {
    pub cos_q: i64,
    pub sin_q: i64,
}

impl Rotation {
    /// Both components of a rotation stay within the fixed-point unit.
    pub open spec fn is_bounded(self) -> bool {
        -ROT_ONE <= self.cos_q <= ROT_ONE && -ROT_ONE <= self.sin_q <= ROT_ONE
    }

    /// An exact unit rotation: the pair lies exactly on the unit circle.
    /// Quarter-turn rotations are exactly representable; a rounded pair for
    /// an arbitrary angle is merely close to it.
    pub open spec fn is_unit(self) -> bool {
        self.cos_q * self.cos_q + self.sin_q * self.sin_q == ROT_ONE * ROT_ONE
    }

    /// The rotation by a zero angle.
    pub fn identity() -> (r: Rotation)
        ensures
            r == (Rotation { cos_q: ROT_ONE as i64, sin_q: 0i64 }),
            r.is_unit(),
            r.is_bounded(),
    {
        Rotation { cos_q: ROT_ONE, sin_q: 0 }
    }

    /// The quarter turn, a rotation by a right angle.
    pub fn quarter_turn() -> (r: Rotation)
        ensures
            r == (Rotation { cos_q: 0i64, sin_q: ROT_ONE as i64 }),
            r.is_unit(),
            r.is_bounded(),
    {
        Rotation { cos_q: 0, sin_q: ROT_ONE }
    }
}

/// An RGBA tint; every `u8` channel is a valid channel value.
#[derive(Clone, Copy, Debug, PartialEq, Eq, Structural)]
pub struct Rgba {
    pub red: u8,
    pub green: u8,
    pub blue: u8,
    pub alpha: u8,
}

/// A monitor's placement in the scene: a displacement from the scene origin,
/// a rotation about its own center, and a cosmetic tint.
#[derive(Clone, Copy, Debug, PartialEq, Eq, Structural)]
pub struct Placement {
    pub offset: Point,
    pub rotation: Rotation,
    pub tint: Rgba,
}

/// A monitor's visual half-extents in scene pixels: half the width and half
/// the height of its drawn rectangle.
#[derive(Clone, Copy, Debug, PartialEq, Eq, Structural)]
pub struct VisualSize {
    pub half_w: i64,
    pub half_h: i64,
}

impl VisualSize {
    /// Half-extents are nonnegative and within the coordinate range.
    pub open spec fn is_bounded(self) -> bool {
        0 <= self.half_w <= COORD_MAX && 0 <= self.half_h <= COORD_MAX
    }
}

/// A coordinate within the range the scene functions accept.
pub open spec fn coord_ok(v: int) -> bool {
    -COORD_MAX <= v <= COORD_MAX
}

/// A point whose coordinates are within range.
pub open spec fn point_ok(p: Point) -> bool {
    coord_ok(p.x as int) && coord_ok(p.y as int)
}

/// Scales a monitor's physical size to its visual half-extents:
/// `half = mil · scale_ppi / 2000` scene pixels, from milli-inches and a
/// pixels-per-inch scale factor.
pub open spec fn spec_half_extent(mil: int, scale_ppi: int) -> int {
    mil * scale_ppi / 2000
}

/// Computes a monitor's visual half-extents from its physical size and the
/// uniform scale factor, rounding down to whole scene pixels.
pub fn visual_size(size: &crate::physical::PhysicalSize, scale_ppi: u32) -> (v: VisualSize)
    requires
        spec_half_extent(size.width_mil as int, scale_ppi as int) <= COORD_MAX,
        spec_half_extent(size.height_mil as int, scale_ppi as int) <= COORD_MAX,
    ensures
        v.half_w == spec_half_extent(size.width_mil as int, scale_ppi as int),
        v.half_h == spec_half_extent(size.height_mil as int, scale_ppi as int),
        v.is_bounded(),
{
    assert((size.width_mil as int) * (scale_ppi as int) < 0x1000000000000000000000000
        && (size.height_mil as int) * (scale_ppi as int) < 0x1000000000000000000000000
        && (size.width_mil as int) * (scale_ppi as int) >= 0
        && (size.height_mil as int) * (scale_ppi as int) >= 0) by (nonlinear_arith)
        requires
            0 <= size.width_mil < 0x10000000000000000int,
            0 <= size.height_mil < 0x10000000000000000int,
            0 <= scale_ppi < 0x100000000int;
    let w = ((size.width_mil as u128) * (scale_ppi as u128)) / 2000;
    let h = ((size.height_mil as u128) * (scale_ppi as u128)) / 2000;
    VisualSize { half_w: w as i64, half_h: h as i64 }
}

/// The local x coordinate of `p` in the placement's unrotated frame, scaled
/// by `ROT_ONE`: the inverse rotation applied to the offset of `p` from the
/// placement's center.
pub open spec fn local_x(p: Point, placement: Placement, origin: Point) -> int {
    let rx = p.x - origin.x - placement.offset.x;
    let ry = p.y - origin.y - placement.offset.y;
    rx * placement.rotation.cos_q + ry * placement.rotation.sin_q
}

/// The local y coordinate of `p` in the placement's unrotated frame, scaled
/// by `ROT_ONE`.
pub open spec fn local_y(p: Point, placement: Placement, origin: Point) -> int {
    let rx = p.x - origin.x - placement.offset.x;
    let ry = p.y - origin.y - placement.offset.y;
    ry * placement.rotation.cos_q - rx * placement.rotation.sin_q
}

/// Whether `p` lies inside (or exactly on the edge of) the rotated rectangle
/// of the given half-extents placed at `origin + placement.offset`: the
/// axis-aligned box test in the rectangle's own frame, with both sides scaled
/// by `ROT_ONE`.
pub open spec fn rect_contains(
    p: Point,
    vis: VisualSize,
    placement: Placement,
    origin: Point,
) -> bool {
    &&& -(vis.half_w * ROT_ONE) <= local_x(p, placement, origin) <= vis.half_w * ROT_ONE
    &&& -(vis.half_h * ROT_ONE) <= local_y(p, placement, origin) <= vis.half_h * ROT_ONE
}

/// The product of values bounded in magnitude is bounded by the product of
/// the bounds.
proof fn lemma_mul_abs_bound(a: int, b: int, ma: int, mb: int)
    by (nonlinear_arith)
    requires
        -ma <= a <= ma,
        -mb <= b <= mb,
    ensures
        -(ma * mb) <= a * b <= ma * mb,
{
}

/// Hit-tests a point against a monitor's rotated rectangle. The point is
/// carried into the monitor's local, unrotated frame by the inverse rotation,
/// and tested against the axis-aligned half-extents; the boundary counts as
/// inside.
pub fn contains(p: Point, vis: VisualSize, placement: &Placement, origin: Point) -> (r: bool)
    requires
        point_ok(p),
        point_ok(origin),
        point_ok(placement.offset),
        placement.rotation.is_bounded(),
        vis.is_bounded(),
    ensures
        r == rect_contains(p, vis, *placement, origin),
{
    let rx = p.x - origin.x - placement.offset.x;
    let ry = p.y - origin.y - placement.offset.y;
    proof {
        lemma_mul_abs_bound(rx as int, placement.rotation.cos_q as int, 3 * COORD_MAX as int, ROT_ONE as int);
        lemma_mul_abs_bound(rx as int, placement.rotation.sin_q as int, 3 * COORD_MAX as int, ROT_ONE as int);
        lemma_mul_abs_bound(ry as int, placement.rotation.cos_q as int, 3 * COORD_MAX as int, ROT_ONE as int);
        lemma_mul_abs_bound(ry as int, placement.rotation.sin_q as int, 3 * COORD_MAX as int, ROT_ONE as int);
        lemma_mul_abs_bound(vis.half_w as int, ROT_ONE as int, COORD_MAX as int, ROT_ONE as int);
        lemma_mul_abs_bound(vis.half_h as int, ROT_ONE as int, COORD_MAX as int, ROT_ONE as int);
    }
    let lx = rx * placement.rotation.cos_q + ry * placement.rotation.sin_q;
    let ly = ry * placement.rotation.cos_q - rx * placement.rotation.sin_q;
    let hw = vis.half_w * ROT_ONE;
    let hh = vis.half_h * ROT_ONE;
    -hw <= lx && lx <= hw && -hh <= ly && ly <= hh
}

/// The x offset, scaled by `ROT_ONE`, of a corner at local offset
/// `(dx, dy)` after the forward rotation.
pub open spec fn rotated_dx(dx: int, dy: int, rot: Rotation) -> int {
    dx * rot.cos_q - dy * rot.sin_q
}

/// The y offset, scaled by `ROT_ONE`, of a corner at local offset
/// `(dx, dy)` after the forward rotation.
pub open spec fn rotated_dy(dx: int, dy: int, rot: Rotation) -> int {
    dx * rot.sin_q + dy * rot.cos_q
}

/// The corner points of a placed rectangle, in sub-pixel coordinates scaled
/// by `ROT_ONE`, in the stable order top-left, top-right, bottom-right,
/// bottom-left (with y growing downwards). Connecting them in order and
/// closing the loop traces the monitor's rotated rectangle.
pub fn corners(vis: VisualSize, placement: &Placement, origin: Point) -> (r: Vec<Point>)
    requires
        point_ok(origin),
        point_ok(placement.offset),
        placement.rotation.is_bounded(),
        vis.is_bounded(),
    ensures
        r@.len() == 4,
        r@[0].x == (origin.x + placement.offset.x) * ROT_ONE + rotated_dx(
            -vis.half_w as int,
            -vis.half_h as int,
            placement.rotation,
        ),
        r@[0].y == (origin.y + placement.offset.y) * ROT_ONE + rotated_dy(
            -vis.half_w as int,
            -vis.half_h as int,
            placement.rotation,
        ),
        r@[1].x == (origin.x + placement.offset.x) * ROT_ONE + rotated_dx(
            vis.half_w as int,
            -vis.half_h as int,
            placement.rotation,
        ),
        r@[1].y == (origin.y + placement.offset.y) * ROT_ONE + rotated_dy(
            vis.half_w as int,
            -vis.half_h as int,
            placement.rotation,
        ),
        r@[2].x == (origin.x + placement.offset.x) * ROT_ONE + rotated_dx(
            vis.half_w as int,
            vis.half_h as int,
            placement.rotation,
        ),
        r@[2].y == (origin.y + placement.offset.y) * ROT_ONE + rotated_dy(
            vis.half_w as int,
            vis.half_h as int,
            placement.rotation,
        ),
        r@[3].x == (origin.x + placement.offset.x) * ROT_ONE + rotated_dx(
            -vis.half_w as int,
            vis.half_h as int,
            placement.rotation,
        ),
        r@[3].y == (origin.y + placement.offset.y) * ROT_ONE + rotated_dy(
            -vis.half_w as int,
            vis.half_h as int,
            placement.rotation,
        ),
{
    let cx = origin.x + placement.offset.x;
    let cy = origin.y + placement.offset.y;
    let cxs = cx * ROT_ONE;
    let cys = cy * ROT_ONE;
    let c = placement.rotation.cos_q;
    let s = placement.rotation.sin_q;
    proof {
        lemma_mul_abs_bound(cx as int, ROT_ONE as int, 2 * COORD_MAX as int, ROT_ONE as int);
        lemma_mul_abs_bound(cy as int, ROT_ONE as int, 2 * COORD_MAX as int, ROT_ONE as int);
        lemma_mul_abs_bound(vis.half_w as int, c as int, COORD_MAX as int, ROT_ONE as int);
        lemma_mul_abs_bound(vis.half_w as int, s as int, COORD_MAX as int, ROT_ONE as int);
        lemma_mul_abs_bound(vis.half_h as int, c as int, COORD_MAX as int, ROT_ONE as int);
        lemma_mul_abs_bound(vis.half_h as int, s as int, COORD_MAX as int, ROT_ONE as int);
    }
    let wc = vis.half_w * c;
    let ws = vis.half_w * s;
    let hc = vis.half_h * c;
    let hs = vis.half_h * s;
    let mut r: Vec<Point> = Vec::new();
    r.push(Point { x: cxs + (-wc + hs), y: cys + (-ws - hc) });
    r.push(Point { x: cxs + (wc + hs), y: cys + (ws - hc) });
    r.push(Point { x: cxs + (wc - hs), y: cys + (ws + hc) });
    r.push(Point { x: cxs + (-wc - hs), y: cys + (-ws + hc) });
    proof {
        let rot = placement.rotation;
        let hw = vis.half_w as int;
        let hh = vis.half_h as int;
        assert(rotated_dx(-hw, -hh, rot) == -(hw * rot.cos_q) + hh * rot.sin_q
            && rotated_dy(-hw, -hh, rot) == -(hw * rot.sin_q) - hh * rot.cos_q
            && rotated_dx(hw, -hh, rot) == hw * rot.cos_q + hh * rot.sin_q
            && rotated_dy(hw, -hh, rot) == hw * rot.sin_q - hh * rot.cos_q
            && rotated_dx(hw, hh, rot) == hw * rot.cos_q - hh * rot.sin_q
            && rotated_dy(hw, hh, rot) == hw * rot.sin_q + hh * rot.cos_q
            && rotated_dx(-hw, hh, rot) == -(hw * rot.cos_q) - hh * rot.sin_q
            && rotated_dy(-hw, hh, rot) == -(hw * rot.sin_q) + hh * rot.cos_q)
            by (nonlinear_arith)
            requires
                rotated_dx(-hw, -hh, rot) == (-hw) * rot.cos_q - (-hh) * rot.sin_q,
                rotated_dy(-hw, -hh, rot) == (-hw) * rot.sin_q + (-hh) * rot.cos_q,
                rotated_dx(hw, -hh, rot) == hw * rot.cos_q - (-hh) * rot.sin_q,
                rotated_dy(hw, -hh, rot) == hw * rot.sin_q + (-hh) * rot.cos_q,
                rotated_dx(hw, hh, rot) == hw * rot.cos_q - hh * rot.sin_q,
                rotated_dy(hw, hh, rot) == hw * rot.sin_q + hh * rot.cos_q,
                rotated_dx(-hw, hh, rot) == (-hw) * rot.cos_q - hh * rot.sin_q,
                rotated_dy(-hw, hh, rot) == (-hw) * rot.sin_q + hh * rot.cos_q;
    }
    r
}

/// Rotating a vector forward and then applying the inverse rotation scales it
/// by `cos² + sin²`; for an exact unit rotation that is `ROT_ONE²`, so the
/// round trip reproduces the vector in the finer fixed-point scale.
pub proof fn lemma_rotation_round_trip(x: int, y: int, c: int, s: int)
    by (nonlinear_arith)
    ensures
        c * (x * c - y * s) + s * (x * s + y * c) == (c * c + s * s) * x,
        (x * s + y * c) * c - (x * c - y * s) * s == (c * c + s * s) * y,
{
}

/// Containment is invariant under rotating the point together with the
/// frame: for an exact unit rotation, hit-testing the forward-rotated vector
/// against the rotated rectangle gives the same answer as the plain
/// axis-aligned test of the original vector against the unrotated one.
pub proof fn lemma_containment_rotation_invariant(
    vx: int,
    vy: int,
    rot: Rotation,
    half_w: int,
    half_h: int,
)
    requires
        rot.is_unit(),
        0 <= half_w,
        0 <= half_h,
    ensures
        ({
            let fx = rotated_dx(vx, vy, rot);
            let fy = rotated_dy(vx, vy, rot);
            let ix = fx * rot.cos_q + fy * rot.sin_q;
            let iy = fy * rot.cos_q - fx * rot.sin_q;
            (-(half_w * ROT_ONE * ROT_ONE) <= ix <= half_w * ROT_ONE * ROT_ONE
                && -(half_h * ROT_ONE * ROT_ONE) <= iy <= half_h * ROT_ONE * ROT_ONE) <==> (-half_w
                <= vx <= half_w && -half_h <= vy <= half_h)
        }),
{
    let fx = rotated_dx(vx, vy, rot);
    let fy = rotated_dy(vx, vy, rot);
    let ix = fx * rot.cos_q + fy * rot.sin_q;
    let iy = fy * rot.cos_q - fx * rot.sin_q;
    lemma_rotation_round_trip(vx, vy, rot.cos_q as int, rot.sin_q as int);
    assert(ix == vx * (ROT_ONE * ROT_ONE) && iy == vy * (ROT_ONE * ROT_ONE)) by (nonlinear_arith)
        requires
            fx == vx * rot.cos_q - vy * rot.sin_q,
            fy == vx * rot.sin_q + vy * rot.cos_q,
            ix == fx * rot.cos_q + fy * rot.sin_q,
            iy == fy * rot.cos_q - fx * rot.sin_q,
            rot.cos_q * rot.cos_q + rot.sin_q * rot.sin_q == ROT_ONE * ROT_ONE;
    assert((-(half_w * ROT_ONE * ROT_ONE) <= vx * (ROT_ONE * ROT_ONE) <= half_w * ROT_ONE
        * ROT_ONE) <==> (-half_w <= vx <= half_w)) by (nonlinear_arith)
        requires 0 <= half_w;
    assert((-(half_h * ROT_ONE * ROT_ONE) <= vy * (ROT_ONE * ROT_ONE) <= half_h * ROT_ONE
        * ROT_ONE) <==> (-half_h <= vy <= half_h)) by (nonlinear_arith)
        requires 0 <= half_h;
}

/// The average of the four corner points is the placed rectangle's center
/// (in the corners' sub-pixel scale): the four rotated corner offsets cancel
/// exactly. And the center itself always hit-tests as inside, whatever the
/// rotation.
pub proof fn lemma_corner_center_containment(
    vis: VisualSize,
    placement: Placement,
    origin: Point,
)
    requires
        point_ok(origin),
        point_ok(placement.offset),
        vis.is_bounded(),
    ensures
        ({
            let rot = placement.rotation;
            let hw = vis.half_w as int;
            let hh = vis.half_h as int;
            rotated_dx(-hw, -hh, rot) + rotated_dx(hw, -hh, rot) + rotated_dx(hw, hh, rot)
                + rotated_dx(-hw, hh, rot) == 0 && rotated_dy(-hw, -hh, rot) + rotated_dy(
                hw,
                -hh,
                rot,
            ) + rotated_dy(hw, hh, rot) + rotated_dy(-hw, hh, rot) == 0
        }),
        rect_contains(
            Point {
                x: (origin.x + placement.offset.x) as i64,
                y: (origin.y + placement.offset.y) as i64,
            },
            vis,
            placement,
            origin,
        ),
{
    let rot = placement.rotation;
    let hw = vis.half_w as int;
    let hh = vis.half_h as int;
    assert(rotated_dx(-hw, -hh, rot) + rotated_dx(hw, -hh, rot) + rotated_dx(hw, hh, rot)
        + rotated_dx(-hw, hh, rot) == 0 && rotated_dy(-hw, -hh, rot) + rotated_dy(hw, -hh, rot)
        + rotated_dy(hw, hh, rot) + rotated_dy(-hw, hh, rot) == 0) by (nonlinear_arith)
        requires
            rotated_dx(-hw, -hh, rot) == (-hw) * rot.cos_q - (-hh) * rot.sin_q,
            rotated_dy(-hw, -hh, rot) == (-hw) * rot.sin_q + (-hh) * rot.cos_q,
            rotated_dx(hw, -hh, rot) == hw * rot.cos_q - (-hh) * rot.sin_q,
            rotated_dy(hw, -hh, rot) == hw * rot.sin_q + (-hh) * rot.cos_q,
            rotated_dx(hw, hh, rot) == hw * rot.cos_q - hh * rot.sin_q,
            rotated_dy(hw, hh, rot) == hw * rot.sin_q + hh * rot.cos_q,
            rotated_dx(-hw, hh, rot) == (-hw) * rot.cos_q - hh * rot.sin_q,
            rotated_dy(-hw, hh, rot) == (-hw) * rot.sin_q + hh * rot.cos_q;
    let center = Point {
        x: (origin.x + placement.offset.x) as i64,
        y: (origin.y + placement.offset.y) as i64,
    };
    assert(local_x(center, placement, origin) == 0 && local_y(center, placement, origin) == 0)
        by (nonlinear_arith)
        requires
            local_x(center, placement, origin) == (center.x - origin.x - placement.offset.x)
                * rot.cos_q + (center.y - origin.y - placement.offset.y) * rot.sin_q,
            local_y(center, placement, origin) == (center.y - origin.y - placement.offset.y)
                * rot.cos_q - (center.x - origin.x - placement.offset.x) * rot.sin_q,
            center.x == origin.x + placement.offset.x,
            center.y == origin.y + placement.offset.y;
    assert(0 <= vis.half_w * ROT_ONE && 0 <= vis.half_h * ROT_ONE) by (nonlinear_arith)
        requires 0 <= vis.half_w && 0 <= vis.half_h;
}

} // verus!

use monitor_scale::physical::PhysicalSize;
use monitor_scale::scene::{
    contains, corners, visual_size, Placement, Point, Rgba, Rotation, VisualSize,
};

const K: i64 = 65535;

fn plain_placement(x: i64, y: i64, rot: Rotation) -> Placement {
    Placement {
        offset: Point { x, y },
        rotation: rot,
        tint: Rgba { red: 100, green: 150, blue: 200, alpha: 255 },
    }
}

fn no_rotation() -> Rotation {
    Rotation { cos_q: K, sin_q: 0 }
}

fn quarter_rotation() -> Rotation {
    Rotation { cos_q: 0, sin_q: K }
}

#[test]
fn visual_size_scales_physical_size() {
    let size = PhysicalSize { width_mil: 23532, height_mil: 13237 };
    let vis = visual_size(&size, 30);
    assert_eq!(vis.half_w, 352);
    assert_eq!(vis.half_h, 198);
    let zero = visual_size(&size, 0);
    assert_eq!(zero.half_w, 0);
    assert_eq!(zero.half_h, 0);
}

#[test]
fn contains_axis_aligned() {
    let p = plain_placement(10, 0, no_rotation());
    let vis = VisualSize { half_w: 100, half_h: 50 };
    let origin = Point { x: 0, y: 0 };
    // center
    assert!(contains(Point { x: 10, y: 0 }, vis, &p, origin));
    // the boundary counts as inside
    assert!(contains(Point { x: 110, y: 50 }, vis, &p, origin));
    assert!(contains(Point { x: -90, y: -50 }, vis, &p, origin));
    // one past the boundary is outside
    assert!(!contains(Point { x: 111, y: 0 }, vis, &p, origin));
    assert!(!contains(Point { x: 10, y: 51 }, vis, &p, origin));
}

#[test]
fn contains_respects_scene_origin() {
    let p = plain_placement(0, 0, no_rotation());
    let vis = VisualSize { half_w: 10, half_h: 10 };
    let origin = Point { x: 500, y: 400 };
    assert!(contains(Point { x: 500, y: 400 }, vis, &p, origin));
    assert!(!contains(Point { x: 0, y: 0 }, vis, &p, origin));
}

#[test]
fn quarter_turn_swaps_the_axes() {
    // a wide, short monitor turned by a right angle
    let vis = VisualSize { half_w: 100, half_h: 50 };
    let origin = Point { x: 0, y: 0 };
    let flat = plain_placement(0, 0, no_rotation());
    let turned = plain_placement(0, 0, quarter_rotation());
    // the unrotated right-edge midpoint lies inside only before the turn
    assert!(contains(Point { x: 100, y: 0 }, vis, &flat, origin));
    assert!(!contains(Point { x: 100, y: 0 }, vis, &turned, origin));
    // after the turn the same edge midpoint sits at the bottom edge
    assert!(contains(Point { x: 0, y: 100 }, vis, &turned, origin));
    assert!(!contains(Point { x: 0, y: 100 }, vis, &flat, origin));
}

#[test]
fn corners_of_unrotated_rectangle() {
    let p = plain_placement(10, 0, no_rotation());
    let vis = VisualSize { half_w: 100, half_h: 50 };
    let origin = Point { x: 0, y: 0 };
    let c = corners(vis, &p, origin);
    assert_eq!(c.len(), 4);
    // top-left, top-right, bottom-right, bottom-left, in sub-pixel scale
    assert_eq!((c[0].x, c[0].y), (-90 * K, -50 * K));
    assert_eq!((c[1].x, c[1].y), (110 * K, -50 * K));
    assert_eq!((c[2].x, c[2].y), (110 * K, 50 * K));
    assert_eq!((c[3].x, c[3].y), (-90 * K, 50 * K));
}

#[test]
fn corners_of_quarter_turned_rectangle() {
    let p = plain_placement(0, 0, quarter_rotation());
    let vis = VisualSize { half_w: 100, half_h: 50 };
    let origin = Point { x: 200, y: 300 };
    let c = corners(vis, &p, origin);
    // (dx, dy) maps to (-dy, dx) under a quarter turn
    assert_eq!((c[0].x, c[0].y), (200 * K + 50 * K, 300 * K - 100 * K));
    assert_eq!((c[1].x, c[1].y), (200 * K + 50 * K, 300 * K + 100 * K));
    assert_eq!((c[2].x, c[2].y), (200 * K - 50 * K, 300 * K + 100 * K));
    assert_eq!((c[3].x, c[3].y), (200 * K - 50 * K, 300 * K - 100 * K));
}

#[test]
fn corner_average_is_the_center() {
    // an arbitrary bounded rotation pair, not on the unit circle
    let rot = Rotation { cos_q: 60000, sin_q: 26000 };
    let p = plain_placement(-35, 77, rot);
    let vis = VisualSize { half_w: 353, half_h: 198 };
    let origin = Point { x: 640, y: 400 };
    let c = corners(vis, &p, origin);
    let sx: i64 = c.iter().map(|q| q.x).sum();
    let sy: i64 = c.iter().map(|q| q.y).sum();
    assert_eq!(sx, 4 * (640 - 35) * K);
    assert_eq!(sy, 4 * (400 + 77) * K);
    // and the center itself always hit-tests as inside
    assert!(contains(Point { x: 640 - 35, y: 400 + 77 }, vis, &p, origin));
}

#[test]
fn triple_rotation_matches_unrotated_frame() {
    // the 3-4-5 triangle's rotation lies exactly on the fixed-point unit
    // circle: (39321, 52428, 65535) is 13107 times (3, 4, 5)
    let rot = Rotation { cos_q: 39321, sin_q: 52428 };
    assert_eq!(rot.cos_q * rot.cos_q + rot.sin_q * rot.sin_q, K * K);
    let origin = Point { x: 0, y: 0 };
    let turned = plain_placement(0, 0, rot);
    let flat = plain_placement(0, 0, no_rotation());
    // the vector (3K, 4K), rotated forward by that angle, lands on integer
    // coordinates: (3·cos − 4·sin, 3·sin + 4·cos) scaled by K
    let u = Point { x: 3 * K, y: 4 * K };
    let f = Point {
        x: 3 * rot.cos_q - 4 * rot.sin_q,
        y: 3 * rot.sin_q + 4 * rot.cos_q,
    };
    assert_eq!((f.x, f.y), (-91749, 314568));
    // hit-testing the rotated point against the rotated rectangle agrees
    // with hit-testing the original point against the unrotated one,
    // boundary included
    let vis = VisualSize { half_w: 3 * K, half_h: 4 * K };
    assert!(contains(f, vis, &turned, origin));
    assert!(contains(u, vis, &flat, origin));
    let narrower = VisualSize { half_w: 3 * K - 1, half_h: 4 * K };
    assert!(!contains(f, narrower, &turned, origin));
    assert!(!contains(u, narrower, &flat, origin));
    let shorter = VisualSize { half_w: 3 * K, half_h: 4 * K - 1 };
    assert!(!contains(f, shorter, &turned, origin));
    assert!(!contains(u, shorter, &flat, origin));
}

#[test]
fn rotation_constructors() {
    let id = Rotation::identity();
    assert_eq!((id.cos_q, id.sin_q), (K, 0));
    let q = Rotation::quarter_turn();
    assert_eq!((q.cos_q, q.sin_q), (0, K));
}

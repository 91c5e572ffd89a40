//! The geometry mapper: pure conversion of a pointer sample and a drag
//! origin into a clamped visual offset and a quantized direction.
//!
//! Classification compares squared distances, which decides "distance
//! below the deadzone" and "distance beyond the radius" exactly,
//! without ever forming the distance itself.

use vstd::math::abs;
use vstd::prelude::*;
use crate::direction::Direction;

verus! {

/// Largest pointer coordinate magnitude the geometry accepts; keeps
/// every squared distance comfortably inside machine arithmetic.
pub const COORD_BOUND: i32 = 1_000_000;

/// A coordinate within the accepted pointer range.
pub open spec fn in_coord_range(v: int) -> bool {
    -COORD_BOUND <= v <= COORD_BOUND
}

/// A per-control geometry constant: non-negative and within range.
pub open spec fn valid_radius(v: int) -> bool {
    0 <= v <= COORD_BOUND
}

/// Squared Euclidean distance of an offset from the origin.
pub open spec fn dist_sq(dx: int, dy: int) -> int {
    dx * dx + dy * dy
}

/// Visual offset of a one-dimensional drag: the signed delta, pulled
/// back to the radius once it exceeds it.
pub open spec fn clamp_1d(delta: int, max_radius: int) -> int {
    if delta > max_radius {
        max_radius
    } else if delta < -max_radius {
        -max_radius
    } else {
        delta
    }
}

/// Classification of a one-dimensional drag: inside the deadzone it is
/// Neutral; beyond it, the sign of the delta decides Down (positive,
/// towards the screen bottom) or Up (negative).
pub open spec fn dir_1d(delta: int, deadzone: int) -> Direction {
    if abs(delta) < deadzone {
        Direction::Neutral
    } else if delta > 0 {
        Direction::Down
    } else {
        Direction::Up
    }
}

/// Classification of a two-dimensional drag: inside the deadzone it is
/// Neutral; beyond it the dominant axis wins — a strictly larger
/// horizontal magnitude chooses Left/Right by the sign of the
/// horizontal delta, otherwise the vertical sign chooses Up/Down.
/// Exactly one of the four concrete directions results, never a
/// diagonal.
pub open spec fn dir_2d(dx: int, dy: int, deadzone: int) -> Direction {
    if dist_sq(dx, dy) < deadzone * deadzone {
        Direction::Neutral
    } else if abs(dx) > abs(dy) {
        if dx > 0 {
            Direction::Right
        } else {
            Direction::Left
        }
    } else if dy > 0 {
        Direction::Down
    } else {
        Direction::Up
    }
}

/// Rendered puck position of a two-dimensional drag. `Free` is the raw
/// offset itself. `Clamped { x, y, radius }` stands for the exact
/// vector (x, y) · radius / ‖(x, y)‖: the raw offset scaled back onto
/// the circle of the given radius, whose magnitude is the radius
/// exactly. The scaling touches only the rendered position, never the
/// classification.
#[derive(Clone, Copy, PartialEq, Eq, Structural, Debug)]
pub enum StickPos {
    Free { x: i32, y: i32 },
    Clamped { x: i32, y: i32, radius: i32 },
}

/// Puck position for a raw offset: clamped exactly when the distance
/// exceeds the radius.
pub open spec fn puck_2d(dx: int, dy: int, max_radius: int) -> StickPos {
    if dist_sq(dx, dy) > max_radius * max_radius {
        StickPos::Clamped { x: dx as i32, y: dy as i32, radius: max_radius as i32 }
    } else {
        StickPos::Free { x: dx as i32, y: dy as i32 }
    }
}

/// Map a one-dimensional pointer sample against its drag origin to the
/// clamped visual offset and the quantized direction.
pub fn classify_1d(origin: i32, current: i32, max_radius: i32, deadzone: i32) -> (r: (
    i32,
    Direction,
))
    requires
        in_coord_range(origin as int),
        in_coord_range(current as int),
        valid_radius(max_radius as int),
        valid_radius(deadzone as int),
    ensures
        r.0 == clamp_1d(current - origin, max_radius as int),
        r.1 == dir_1d(current - origin, deadzone as int),
{
    let delta: i64 = current as i64 - origin as i64;
    let vis: i32 = if delta > max_radius as i64 {
        max_radius
    } else if delta < -(max_radius as i64) {
        -max_radius
    } else {
        delta as i32
    };
    let magnitude: i64 = if delta < 0 {
        -delta
    } else {
        delta
    };
    let dir = if magnitude < deadzone as i64 {
        Direction::Neutral
    } else if delta > 0 {
        Direction::Down
    } else {
        Direction::Up
    };
    (vis, dir)
}

/// Map a two-dimensional pointer sample against its drag origin to the
/// puck position and the quantized direction. Classification always
/// uses the raw, unclamped offset.
pub fn classify_2d(
    origin_x: i32,
    origin_y: i32,
    current_x: i32,
    current_y: i32,
    max_radius: i32,
    deadzone: i32,
) -> (r: (StickPos, Direction))
    requires
        in_coord_range(origin_x as int),
        in_coord_range(origin_y as int),
        in_coord_range(current_x as int),
        in_coord_range(current_y as int),
        valid_radius(max_radius as int),
        valid_radius(deadzone as int),
    ensures
        r.0 == puck_2d(current_x - origin_x, current_y - origin_y, max_radius as int),
        r.1 == dir_2d(current_x - origin_x, current_y - origin_y, deadzone as int),
{
    let dx: i64 = current_x as i64 - origin_x as i64;
    let dy: i64 = current_y as i64 - origin_y as i64;
    proof {
        assert(dx * dx <= 4_000_000_000_000 && dx * dx >= 0) by (nonlinear_arith)
            requires
                -2_000_000 <= dx <= 2_000_000,
        ;
        assert(dy * dy <= 4_000_000_000_000 && dy * dy >= 0) by (nonlinear_arith)
            requires
                -2_000_000 <= dy <= 2_000_000,
        ;
        assert((deadzone as i64) * (deadzone as i64) <= 1_000_000_000_000) by (nonlinear_arith)
            requires
                0 <= deadzone as i64 <= 1_000_000,
        ;
        assert((max_radius as i64) * (max_radius as i64) <= 1_000_000_000_000) by (
        nonlinear_arith)
            requires
                0 <= max_radius as i64 <= 1_000_000,
        ;
    }
    let dsq: i64 = dx * dx + dy * dy;
    let adx: i64 = if dx < 0 {
        -dx
    } else {
        dx
    };
    let ady: i64 = if dy < 0 {
        -dy
    } else {
        dy
    };
    let dir = if dsq < (deadzone as i64) * (deadzone as i64) {
        Direction::Neutral
    } else if adx > ady {
        if dx > 0 {
            Direction::Right
        } else {
            Direction::Left
        }
    } else if dy > 0 {
        Direction::Down
    } else {
        Direction::Up
    };
    let pos = if dsq > (max_radius as i64) * (max_radius as i64) {
        StickPos::Clamped { x: dx as i32, y: dy as i32, radius: max_radius }
    } else {
        StickPos::Free { x: dx as i32, y: dy as i32 }
    };
    (pos, dir)
}

/// Law: a one-dimensional displacement strictly inside the deadzone is
/// Neutral; at or beyond it the classification is the concrete
/// direction of the delta's sign, never Neutral.
pub proof fn lemma_deadzone_1d(delta: int, deadzone: int)
    ensures
        abs(delta) < deadzone ==> dir_1d(delta, deadzone) == Direction::Neutral,
        abs(delta) >= deadzone ==> dir_1d(delta, deadzone) == (if delta > 0 {
            Direction::Down
        } else {
            Direction::Up
        }),
        abs(delta) >= deadzone ==> dir_1d(delta, deadzone) != Direction::Neutral,
{
}

/// Law: a two-dimensional displacement whose distance is strictly
/// inside the deadzone is Neutral; one whose distance is at or beyond
/// it classifies as the concrete direction of the dominant axis, by
/// that axis's sign, never Neutral. Distances compare as squares, so
/// "distance below deadzone" is `dist_sq < deadzone²`.
pub proof fn lemma_deadzone_2d(dx: int, dy: int, deadzone: int)
    ensures
        dist_sq(dx, dy) < deadzone * deadzone ==> dir_2d(dx, dy, deadzone)
            == Direction::Neutral,
        dist_sq(dx, dy) >= deadzone * deadzone && abs(dx) > abs(dy) ==> dir_2d(
            dx,
            dy,
            deadzone,
        ) == (if dx > 0 {
            Direction::Right
        } else {
            Direction::Left
        }),
        dist_sq(dx, dy) >= deadzone * deadzone && abs(dx) <= abs(dy) ==> dir_2d(
            dx,
            dy,
            deadzone,
        ) == (if dy > 0 {
            Direction::Down
        } else {
            Direction::Up
        }),
        dist_sq(dx, dy) >= deadzone * deadzone ==> dir_2d(dx, dy, deadzone)
            != Direction::Neutral,
{
}

/// Law: once the one-dimensional delta exceeds the radius in
/// magnitude, the visual offset's magnitude equals the radius exactly;
/// within the radius the offset is the delta itself, unchanged.
pub proof fn lemma_clamp_1d(delta: int, max_radius: int)
    requires
        max_radius >= 0,
    ensures
        abs(delta) > max_radius ==> abs(clamp_1d(delta, max_radius)) == max_radius,
        abs(delta) <= max_radius ==> clamp_1d(delta, max_radius) == delta,
{
}

/// Law: once the two-dimensional distance exceeds the radius, the puck
/// is `Clamped`, standing for the raw offset scaled by
/// radius/distance; its squared magnitude equals the squared radius
/// exactly, as rationals: (x·r)² + (y·r)² == r² · dist², so
/// ‖(x, y) · r / dist‖ == r. Within the radius the puck is the raw
/// offset, `Free`. Classification is unaffected either way: `dir_2d`
/// takes the raw offset only.
pub proof fn lemma_clamp_2d(dx: int, dy: int, max_radius: int)
    requires
        -2 * COORD_BOUND <= dx <= 2 * COORD_BOUND,
        -2 * COORD_BOUND <= dy <= 2 * COORD_BOUND,
        valid_radius(max_radius),
    ensures
        dist_sq(dx, dy) > max_radius * max_radius ==> puck_2d(dx, dy, max_radius)
            == (StickPos::Clamped { x: dx as i32, y: dy as i32, radius: max_radius as i32 }),
        dist_sq(dx, dy) <= max_radius * max_radius ==> puck_2d(dx, dy, max_radius)
            == (StickPos::Free { x: dx as i32, y: dy as i32 }),
        (dx * max_radius) * (dx * max_radius) + (dy * max_radius) * (dy * max_radius)
            == (max_radius * max_radius) * dist_sq(dx, dy),
{
    assert((dx * max_radius) * (dx * max_radius) + (dy * max_radius) * (dy * max_radius)
        == (max_radius * max_radius) * (dx * dx + dy * dy)) by (nonlinear_arith);
}

} // verus!

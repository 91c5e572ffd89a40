use robot_remote::direction::Direction;
use robot_remote::geometry::{classify_1d, classify_2d, StickPos};

#[test]
fn radial_dominant_axis_right() {
    // radial joystick: deadzone 10, max radius 50; delta (40, 5):
    // distance exceeds the deadzone, |dx| > |dy|, dx > 0 -> Right.
    let (pos, dir) = classify_2d(0, 0, 40, 5, 50, 10);
    assert_eq!(dir, Direction::Right);
    assert_eq!(pos, StickPos::Free { x: 40, y: 5 });
}

#[test]
fn radial_dominant_axis_left() {
    let (_, dir) = classify_2d(0, 0, -40, 5, 50, 10);
    assert_eq!(dir, Direction::Left);
}

#[test]
fn radial_vertical_signs() {
    let (_, dir) = classify_2d(0, 0, 5, 40, 50, 10);
    assert_eq!(dir, Direction::Down);
    let (_, dir) = classify_2d(0, 0, 5, -40, 50, 10);
    assert_eq!(dir, Direction::Up);
}

#[test]
fn radial_tie_goes_vertical() {
    // equal magnitudes: the horizontal axis is not strictly dominant,
    // so the vertical sign decides.
    let (_, dir) = classify_2d(0, 0, 30, 30, 50, 10);
    assert_eq!(dir, Direction::Down);
    let (_, dir) = classify_2d(0, 0, 30, -30, 50, 10);
    assert_eq!(dir, Direction::Up);
}

#[test]
fn radial_inside_deadzone_is_neutral() {
    let (_, dir) = classify_2d(0, 0, 6, 7, 50, 10);
    assert_eq!(dir, Direction::Neutral);
    let (_, dir) = classify_2d(100, 100, 100, 100, 50, 10);
    assert_eq!(dir, Direction::Neutral);
}

#[test]
fn radial_at_deadzone_classifies() {
    // distance exactly the deadzone: classification already leaves
    // Neutral (the Neutral band is strictly inside the deadzone).
    let (_, dir) = classify_2d(0, 0, 3, 4, 50, 5);
    assert_eq!(dir, Direction::Down);
}

#[test]
fn radial_clamp_beyond_radius() {
    // distance 100 beyond radius 50: puck clamped, classification
    // still from the raw delta.
    let (pos, dir) = classify_2d(0, 0, 0, 100, 50, 10);
    assert_eq!(pos, StickPos::Clamped { x: 0, y: 100, radius: 50 });
    assert_eq!(dir, Direction::Down);
}

#[test]
fn radial_origin_offset() {
    let (_, dir) = classify_2d(200, 300, 240, 305, 50, 10);
    assert_eq!(dir, Direction::Right);
}

#[test]
fn vertical_up_and_down() {
    // vertical joystick: origin 100, deadzone 15, max radius 60.
    let (vis, dir) = classify_1d(100, 70, 60, 15);
    assert_eq!(vis, -30);
    assert_eq!(dir, Direction::Up);
    let (vis, dir) = classify_1d(100, 200, 60, 15);
    // delta +100 clamps to the radius exactly; classification from
    // the raw delta.
    assert_eq!(vis, 60);
    assert_eq!(dir, Direction::Down);
}

#[test]
fn vertical_inside_deadzone() {
    let (vis, dir) = classify_1d(100, 110, 60, 15);
    assert_eq!(vis, 10);
    assert_eq!(dir, Direction::Neutral);
}

#[test]
fn vertical_negative_clamp() {
    let (vis, dir) = classify_1d(100, -50, 60, 15);
    assert_eq!(vis, -60);
    assert_eq!(dir, Direction::Up);
}

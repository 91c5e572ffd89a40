use robot_remote::controls::{AnalogControl, ButtonLatch, VerticalControl};
use robot_remote::direction::{ActionMap, Direction};
use robot_remote::geometry::StickPos;
use robot_remote::state::DirectionState;

#[test]
fn vertical_session_scenario() {
    // vertical joystick, origin y=100, deadzone 15, max radius 60.
    let mut c = VerticalControl::new(ActionMap::Lift, 60, 15);
    c.on_touch_start(100);

    // move to y=70: delta -30 -> Up, press only.
    let cmds = c.on_move(70);
    assert_eq!(cmds.len(), 1);
    assert_eq!(cmds[0].name, "pull_up");
    assert_eq!(cmds[0].value, "pressed");
    assert_eq!(c.stick_pos, -30);
    assert_eq!(c.state.active, Direction::Up);

    // move to y=200: delta +100, visual offset clamped to 60; the
    // transition releases Up before pressing Down.
    let cmds = c.on_move(200);
    assert_eq!(c.stick_pos, 60);
    assert_eq!(cmds.len(), 2);
    assert_eq!(cmds[0].name, "pull_up");
    assert_eq!(cmds[0].value, "released");
    assert_eq!(cmds[1].name, "pull_down");
    assert_eq!(cmds[1].value, "pressed");

    // pointer up: exactly one release, state back to Neutral.
    let cmds = c.on_end();
    assert_eq!(cmds.len(), 1);
    assert_eq!(cmds[0].name, "pull_down");
    assert_eq!(cmds[0].value, "released");
    assert_eq!(c.state.active, Direction::Neutral);
    assert_eq!(c.drag_start, None);
    assert_eq!(c.stick_pos, 0);

    // ending again at once is a no-op.
    let cmds = c.on_end();
    assert!(cmds.is_empty());
}

#[test]
fn repeated_classification_is_idempotent() {
    let mut c = VerticalControl::new(ActionMap::Arm, 60, 15);
    c.on_touch_start(0);
    let first = c.on_move(-40);
    assert_eq!(first.len(), 1);
    assert_eq!(first[0].name, "arm_up");
    // same classification again: zero additional commands.
    let second = c.on_move(-41);
    assert!(second.is_empty());
    let third = c.on_move(-39);
    assert!(third.is_empty());
}

#[test]
fn neutral_return_releases_only() {
    let mut c = VerticalControl::new(ActionMap::Lift, 60, 15);
    c.on_touch_start(0);
    let press = c.on_move(30);
    assert_eq!(press.len(), 1);
    assert_eq!(press[0].value, "pressed");
    // back inside the deadzone: release the active direction, no
    // press for Neutral.
    let back = c.on_move(5);
    assert_eq!(back.len(), 1);
    assert_eq!(back[0].name, "pull_down");
    assert_eq!(back[0].value, "released");
    assert_eq!(c.state.active, Direction::Neutral);
}

#[test]
fn move_without_session_is_ignored() {
    let mut c = AnalogControl::new(ActionMap::Drive, 50, 10);
    let cmds = c.on_move(500, 500);
    assert!(cmds.is_empty());
    assert_eq!(c.state.active, Direction::Neutral);
}

#[test]
fn analog_full_drag() {
    // radial joystick, deadzone 10, max radius 50.
    let mut c = AnalogControl::new(ActionMap::Drive, 50, 10);
    c.on_touch_start(300, 300);
    let cmds = c.on_move(340, 305);
    assert_eq!(cmds.len(), 1);
    assert_eq!(cmds[0].name, "turn_right");
    assert_eq!(cmds[0].value, "pressed");
    let cmds = c.on_move(300, 220);
    assert_eq!(cmds.len(), 2);
    assert_eq!(cmds[0].name, "turn_right");
    assert_eq!(cmds[0].value, "released");
    assert_eq!(cmds[1].name, "go_front");
    assert_eq!(cmds[1].value, "pressed");
    let cmds = c.on_end();
    assert_eq!(cmds.len(), 1);
    assert_eq!(cmds[0].name, "go_front");
    assert_eq!(cmds[0].value, "released");
}

#[test]
fn locked_out_suppresses_classification() {
    let mut c = AnalogControl::new(ActionMap::Drive, 50, 10);
    c.on_touch_start(0, 0);
    let latch = ButtonLatch::try_new(ActionMap::Drive, Direction::Up).unwrap();
    let pulse = c.on_latch_press(&latch);
    assert_eq!(pulse.name, "go_front");
    assert_eq!(pulse.value, "blink_once");
    assert!(c.locked_out);
    // a large movement while locked: ignored entirely, whatever its
    // magnitude or direction.
    let cmds = c.on_move(4000, -4000);
    assert!(cmds.is_empty());
    assert_eq!(c.state.active, Direction::Neutral);
    let cmds = c.on_move(-900, 2);
    assert!(cmds.is_empty());
    // unlock: classification resumes with the next move.
    c.on_latch_release();
    let cmds = c.on_move(0, -40);
    assert_eq!(cmds.len(), 1);
    assert_eq!(cmds[0].name, "go_front");
    assert_eq!(cmds[0].value, "pressed");
}

#[test]
fn latch_refuses_unmapped_directions() {
    assert!(ButtonLatch::try_new(ActionMap::Drive, Direction::Neutral).is_none());
    assert!(ButtonLatch::try_new(ActionMap::Lift, Direction::Left).is_none());
    assert!(ButtonLatch::try_new(ActionMap::Arm, Direction::Right).is_none());
    assert!(ButtonLatch::try_new(ActionMap::Lift, Direction::Down).is_some());
}

#[test]
fn latch_pulse_uses_latch_direction() {
    let latch = ButtonLatch::new(ActionMap::Arm, Direction::Down);
    let mut c = VerticalControl::new(ActionMap::Arm, 60, 15);
    let pulse = c.on_latch_press(&latch);
    assert_eq!(pulse.name, "arm_down");
    assert_eq!(pulse.value, "blink_once");
    assert!(c.locked_out);
}

#[test]
fn direction_state_transitions() {
    let mut s = DirectionState::new();
    assert_eq!(s.active, Direction::Neutral);
    // Neutral -> Up: press only.
    let (rel, press) = s.on_classification(Direction::Up);
    assert_eq!(rel, None);
    assert_eq!(press, Some(Direction::Up));
    // Up -> Up: no-op.
    let (rel, press) = s.on_classification(Direction::Up);
    assert_eq!(rel, None);
    assert_eq!(press, None);
    // Up -> Left: release Up, press Left, in that order.
    let (rel, press) = s.on_classification(Direction::Left);
    assert_eq!(rel, Some(Direction::Up));
    assert_eq!(press, Some(Direction::Left));
    // Left -> Neutral: release only.
    let (rel, press) = s.on_classification(Direction::Neutral);
    assert_eq!(rel, Some(Direction::Left));
    assert_eq!(press, None);
    assert_eq!(s.active, Direction::Neutral);
}

#[test]
fn session_end_releases_once() {
    let mut s = DirectionState::new();
    s.on_classification(Direction::Right);
    let released = s.on_session_end();
    assert_eq!(released, Some(Direction::Right));
    assert_eq!(s.active, Direction::Neutral);
    let released = s.on_session_end();
    assert_eq!(released, None);
}

#[test]
fn long_drag_never_double_presses() {
    // runtime counterpart of the pairing law: over a long, erratic
    // drag, every press waits for the release of the previous press,
    // and the session ends with nothing outstanding.
    let mut c = AnalogControl::new(ActionMap::Drive, 50, 10);
    c.on_touch_start(0, 0);
    let moves = [
        (40, 5),
        (41, 5),
        (5, 40),
        (0, 0),
        (-40, -5),
        (-40, -5),
        (3, 2),
        (40, 5),
        (5, -40),
        (-5, -40),
    ];
    let mut emitted = Vec::new();
    for (x, y) in moves {
        emitted.extend(c.on_move(x, y));
    }
    emitted.extend(c.on_end());

    let mut pending: Option<String> = None;
    for cmd in &emitted {
        match cmd.value.as_str() {
            "pressed" => {
                assert!(pending.is_none(), "press while {pending:?} outstanding");
                pending = Some(cmd.name.clone());
            }
            "released" => {
                assert_eq!(pending.as_deref(), Some(cmd.name.as_str()));
                pending = None;
            }
            other => panic!("unexpected command value {other:?}"),
        }
    }
    assert!(pending.is_none());
}

#[test]
fn analog_puck_clamps_beyond_radius() {
    let mut c = AnalogControl::new(ActionMap::Drive, 50, 10);
    c.on_touch_start(100, 100);
    c.on_move(100, 250);
    assert_eq!(c.stick_pos, StickPos::Clamped { x: 0, y: 150, radius: 50 });
    c.on_move(110, 120);
    assert_eq!(c.stick_pos, StickPos::Free { x: 10, y: 20 });
    let _ = c.on_end();
    assert_eq!(c.stick_pos, StickPos::Free { x: 0, y: 0 });
}

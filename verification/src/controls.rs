//! The drag-surface controls: a one-dimensional (vertical) joystick, a
//! two-dimensional (radial) joystick, and the discrete button latch
//! that shares a surface with them. Each control owns its drag session
//! and active-direction cell and turns pointer events into the ordered
//! batch of commands to dispatch.

use vstd::prelude::*;
use crate::command::{models_of, Command, CommandModel};
use crate::direction::{action_spec, ActionMap, Direction};
use crate::geometry::{
    classify_1d, classify_2d, clamp_1d, dir_1d, dir_2d, in_coord_range, puck_2d, valid_radius,
    StickPos,
};
use crate::state::{end_events, step_events, DirEvent, DirectionState};

verus! {

/// Wire command of one direction event under an action map, if the map
/// assigns that direction an action.
pub open spec fn wire_of_event(m: ActionMap, e: DirEvent) -> Option<CommandModel> {
    match e {
        DirEvent::Release(d) => match action_spec(m, d) {
            Some(n) => Some(CommandModel { name: n, value: "released"@ }),
            None => None,
        },
        DirEvent::Press(d) => match action_spec(m, d) {
            Some(n) => Some(CommandModel { name: n, value: "pressed"@ }),
            None => None,
        },
    }
}

/// Wire commands of a batch of direction events, in order, dropping
/// events whose direction the map gives no action.
pub open spec fn wire_of_events(m: ActionMap, es: Seq<DirEvent>) -> Seq<CommandModel>
    decreases es.len(),
{
    if es.len() == 0 {
        Seq::<CommandModel>::empty()
    } else {
        (match wire_of_event(m, es[0]) {
            Some(c) => seq![c],
            None => Seq::<CommandModel>::empty(),
        }) + wire_of_events(m, es.drop_first())
    }
}

proof fn lemma_wire_concat(m: ActionMap, a: Seq<DirEvent>, b: Seq<DirEvent>)
    ensures
        wire_of_events(m, a + b) == wire_of_events(m, a) + wire_of_events(m, b),
    decreases a.len(),
{
    if a.len() == 0 {
        assert(a + b =~= b);
        assert(wire_of_events(m, a) + wire_of_events(m, b) =~= wire_of_events(m, b));
    } else {
        lemma_wire_concat(m, a.drop_first(), b);
        assert((a + b).drop_first() =~= a.drop_first() + b);
        assert((a + b)[0] == a[0]);
        assert(wire_of_events(m, a + b) =~= wire_of_events(m, a) + wire_of_events(m, b));
    }
}

proof fn lemma_wire_single(m: ActionMap, e: DirEvent)
    ensures
        wire_of_events(m, seq![e]) == (match wire_of_event(m, e) {
            Some(c) => seq![c],
            None => Seq::<CommandModel>::empty(),
        }),
{
    reveal_with_fuel(wire_of_events, 2);
    assert(seq![e].drop_first() =~= Seq::<DirEvent>::empty());
    assert(wire_of_events(m, seq![e]) =~= (match wire_of_event(m, e) {
        Some(c) => seq![c],
        None => Seq::<CommandModel>::empty(),
    }));
}

/// Commands of one classification transition, release strictly before
/// press, each present only where the map assigns an action.
pub fn transition_commands(m: ActionMap, prev: Direction, new: Direction) -> (r: Vec<Command>)
    ensures
        models_of(r@) == wire_of_events(m, step_events(prev, new)),
{
    let mut r: Vec<Command> = Vec::new();
    if new == prev {
        proof {
            assert(models_of(r@) =~= wire_of_events(m, step_events(prev, new)));
        }
        return r;
    }
    let ghost rel_events = if prev != Direction::Neutral {
        seq![DirEvent::Release(prev)]
    } else {
        Seq::<DirEvent>::empty()
    };
    let ghost press_events = if new != Direction::Neutral {
        seq![DirEvent::Press(new)]
    } else {
        Seq::<DirEvent>::empty()
    };
    proof {
        lemma_wire_concat(m, rel_events, press_events);
        if prev != Direction::Neutral {
            lemma_wire_single(m, DirEvent::Release(prev));
        }
        if new != Direction::Neutral {
            lemma_wire_single(m, DirEvent::Press(new));
        }
    }
    if prev != Direction::Neutral {
        if let Some(n) = m.action_name(prev) {
            r.push(Command::new(n, "released"));
        }
    }
    if new != Direction::Neutral {
        if let Some(n) = m.action_name(new) {
            r.push(Command::new(n, "pressed"));
        }
    }
    proof {
        assert(step_events(prev, new) == rel_events + press_events);
        assert(models_of(r@) =~= wire_of_events(m, rel_events) + wire_of_events(
            m,
            press_events,
        ));
    }
    r
}

/// Command of a session end: the release of the outstanding direction,
/// where the map assigns it an action.
fn end_commands(
    m: ActionMap,
    released: Option<Direction>,
    Ghost(prev): Ghost<Direction>,
) -> (r: Vec<Command>)
    requires
        released == crate::state::pending_of(prev),
    ensures
        models_of(r@) == wire_of_events(m, end_events(prev)),
{
    let mut r: Vec<Command> = Vec::new();
    match released {
        Some(d) => {
            proof {
                lemma_wire_single(m, DirEvent::Release(d));
            }
            if let Some(n) = m.action_name(d) {
                r.push(Command::new(n, "released"));
            }
            proof {
                assert(end_events(prev) =~= seq![DirEvent::Release(d)]);
                assert(models_of(r@) =~= wire_of_events(m, end_events(prev)));
            }
        },
        None => {
            proof {
                assert(end_events(prev) =~= Seq::<DirEvent>::empty());
                assert(models_of(r@) =~= wire_of_events(m, end_events(prev)));
            }
        },
    }
    r
}

/// A one-shot directional tap button sharing a surface with a drag
/// control. It structurally requires a direction its map assigns an
/// action: a neutral button is an invariant violation and cannot be
/// built.
#[derive(Clone, Copy, PartialEq, Eq, Structural, Debug)]
pub struct ButtonLatch {
    pub map: ActionMap,
    pub dir: Direction,
}

impl ButtonLatch {
    /// A latch is well-formed when its map assigns its direction an
    /// action; that direction is then necessarily concrete.
    pub open spec fn wf(self) -> bool {
        action_spec(self.map, self.dir) is Some
    }

    /// Build a latch for a direction the map assigns an action.
    pub fn new(map: ActionMap, dir: Direction) -> (l: ButtonLatch)
        requires
            action_spec(map, dir) is Some,
        ensures
            l == (ButtonLatch { map, dir }),
            l.wf(),
    {
        ButtonLatch { map, dir }
    }

    /// Checked construction: fails exactly on a direction the map
    /// assigns no action — in particular on Neutral, which no map
    /// assigns one.
    pub fn try_new(map: ActionMap, dir: Direction) -> (r: Option<ButtonLatch>)
        ensures
            r matches Some(l) ==> l == (ButtonLatch { map, dir }) && l.wf(),
            r is None <==> action_spec(map, dir) is None,
    {
        match map.action_name(dir) {
            Some(_) => Some(ButtonLatch { map, dir }),
            None => None,
        }
    }

    /// The one-shot pulse dispatched on activation: the latch's action
    /// name with the fixed pulse value. There is no matching release —
    /// a pulse is discrete, not a held state.
    pub fn pulse_command(&self) -> (c: Command)
        requires
            self.wf(),
        ensures
            action_spec(self.map, self.dir) matches Some(n) && c@.name == n,
            c@.value == "blink_once"@,
    {
        let n = match self.map.action_name(self.dir) {
            Some(n) => n,
            None => unreached(),
        };
        Command::new(n, "blink_once")
    }
}

/// The vertical (one-dimensional) joystick: drag up or down from the
/// touch origin; the puck follows the clamped offset and the active
/// direction drives release/press commands through the action map.
pub struct VerticalControl {
    pub map: ActionMap,
    pub max_radius: i32,
    pub deadzone: i32,
    pub drag_start: Option<i32>,
    pub stick_pos: i32,
    pub state: DirectionState,
    pub locked_out: bool,
}

impl VerticalControl {
    /// Geometry constants in range, and any drag origin a real pointer
    /// coordinate.
    pub open spec fn wf(self) -> bool {
        &&& valid_radius(self.max_radius as int)
        &&& valid_radius(self.deadzone as int)
        &&& (self.drag_start matches Some(y) ==> in_coord_range(y as int))
    }

    /// A fresh control: no drag session, puck at rest, no active
    /// direction, not locked out.
    pub fn new(map: ActionMap, max_radius: i32, deadzone: i32) -> (c: VerticalControl)
        requires
            valid_radius(max_radius as int),
            valid_radius(deadzone as int),
        ensures
            c == (VerticalControl {
                map,
                max_radius,
                deadzone,
                drag_start: None,
                stick_pos: 0,
                state: DirectionState { active: Direction::Neutral },
                locked_out: false,
            }),
            c.wf(),
    {
        VerticalControl {
            map,
            max_radius,
            deadzone,
            drag_start: None,
            stick_pos: 0,
            state: DirectionState::new(),
            locked_out: false,
        }
    }

    /// Pointer down: open a drag session at the touch origin.
    pub fn on_touch_start(&mut self, y: i32)
        requires
            old(self).wf(),
            in_coord_range(y as int),
        ensures
            final(self).wf(),
            *final(self) == (VerticalControl { drag_start: Some(y), ..*old(self) }),
    {
        self.drag_start = Some(y);
    }

    /// Pointer move. With no open session, or while a latch holds the
    /// lock, the event is ignored entirely. Otherwise the puck moves
    /// to the clamped offset, the active direction becomes the
    /// classification of the raw delta, and the returned commands are
    /// the transition's release/press unit, in order.
    pub fn on_move(&mut self, y: i32) -> (cmds: Vec<Command>)
        requires
            old(self).wf(),
            in_coord_range(y as int),
        ensures
            final(self).wf(),
            old(self).locked_out || old(self).drag_start is None ==> *final(self) == *old(self)
                && cmds@.len() == 0,
            old(self).drag_start is Some && !old(self).locked_out ==> {
                let start = old(self).drag_start->0;
                let delta = y - start;
                let new_dir = dir_1d(delta, old(self).deadzone as int);
                &&& *final(self) == (VerticalControl {
                    stick_pos: clamp_1d(delta, old(self).max_radius as int) as i32,
                    state: DirectionState { active: new_dir },
                    ..*old(self)
                })
                &&& models_of(cmds@) == wire_of_events(
                    old(self).map,
                    step_events(old(self).state.active, new_dir),
                )
            },
    {
        if self.locked_out {
            return Vec::new();
        }
        match self.drag_start {
            None => Vec::new(),
            Some(start) => {
                let (vis, dir) = classify_1d(start, y, self.max_radius, self.deadzone);
                self.stick_pos = vis;
                let prev = self.state.active;
                let _ = self.state.on_classification(dir);
                transition_commands(self.map, prev, dir)
            },
        }
    }

    /// Pointer up or leave: close the session, rest the puck, and
    /// release the active direction if one is outstanding. Redundant
    /// session ends emit nothing.
    pub fn on_end(&mut self) -> (cmds: Vec<Command>)
        requires
            old(self).wf(),
        ensures
            final(self).wf(),
            *final(self) == (VerticalControl {
                drag_start: None,
                stick_pos: 0,
                state: DirectionState { active: Direction::Neutral },
                ..*old(self)
            }),
            models_of(cmds@) == wire_of_events(
                old(self).map,
                end_events(old(self).state.active),
            ),
    {
        self.drag_start = None;
        self.stick_pos = 0;
        let ghost prev = self.state.active;
        let released = self.state.on_session_end();
        end_commands(self.map, released, Ghost(prev))
    }

    /// A latch on this surface was pressed: dispatch its pulse and
    /// hold the lock, suspending drag classification until release.
    pub fn on_latch_press(&mut self, latch: &ButtonLatch) -> (c: Command)
        requires
            old(self).wf(),
            latch.wf(),
        ensures
            final(self).wf(),
            *final(self) == (VerticalControl { locked_out: true, ..*old(self) }),
            action_spec(latch.map, latch.dir) matches Some(n) && c@.name == n,
            c@.value == "blink_once"@,
    {
        self.locked_out = true;
        latch.pulse_command()
    }

    /// The latch was released: drop the lock; classification resumes
    /// with the next move event.
    pub fn on_latch_release(&mut self)
        requires
            old(self).wf(),
        ensures
            final(self).wf(),
            *final(self) == (VerticalControl { locked_out: false, ..*old(self) }),
    {
        self.locked_out = false;
    }
}

/// The radial (two-dimensional) joystick: drag anywhere from the touch
/// origin; the dominant axis of the raw offset drives the active
/// direction, the puck follows the clamped offset.
pub struct AnalogControl {
    pub map: ActionMap,
    pub max_radius: i32,
    pub deadzone: i32,
    pub drag_start: Option<(i32, i32)>,
    pub stick_pos: StickPos,
    pub state: DirectionState,
    pub locked_out: bool,
}

impl AnalogControl {
    /// Geometry constants in range, and any drag origin a real pointer
    /// coordinate.
    pub open spec fn wf(self) -> bool {
        &&& valid_radius(self.max_radius as int)
        &&& valid_radius(self.deadzone as int)
        &&& (self.drag_start matches Some((x, y)) ==> in_coord_range(x as int) && in_coord_range(
            y as int,
        ))
    }

    /// A fresh control: no drag session, puck at rest, no active
    /// direction, not locked out.
    pub fn new(map: ActionMap, max_radius: i32, deadzone: i32) -> (c: AnalogControl)
        requires
            valid_radius(max_radius as int),
            valid_radius(deadzone as int),
        ensures
            c == (AnalogControl {
                map,
                max_radius,
                deadzone,
                drag_start: None,
                stick_pos: StickPos::Free { x: 0, y: 0 },
                state: DirectionState { active: Direction::Neutral },
                locked_out: false,
            }),
            c.wf(),
    {
        AnalogControl {
            map,
            max_radius,
            deadzone,
            drag_start: None,
            stick_pos: StickPos::Free { x: 0, y: 0 },
            state: DirectionState::new(),
            locked_out: false,
        }
    }

    /// Pointer down: open a drag session at the touch origin.
    pub fn on_touch_start(&mut self, x: i32, y: i32)
        requires
            old(self).wf(),
            in_coord_range(x as int),
            in_coord_range(y as int),
        ensures
            final(self).wf(),
            *final(self) == (AnalogControl { drag_start: Some((x, y)), ..*old(self) }),
    {
        self.drag_start = Some((x, y));
    }

    /// Pointer move. With no open session, or while a latch holds the
    /// lock, the event is ignored entirely. Otherwise the puck moves
    /// to the (possibly clamped) offset, the active direction becomes
    /// the dominant-axis classification of the raw delta, and the
    /// returned commands are the transition's release/press unit, in
    /// order.
    pub fn on_move(&mut self, x: i32, y: i32) -> (cmds: Vec<Command>)
        requires
            old(self).wf(),
            in_coord_range(x as int),
            in_coord_range(y as int),
        ensures
            final(self).wf(),
            old(self).locked_out || old(self).drag_start is None ==> *final(self) == *old(self)
                && cmds@.len() == 0,
            old(self).drag_start is Some && !old(self).locked_out ==> {
                let sx = (old(self).drag_start->0).0;
                let sy = (old(self).drag_start->0).1;
                let dx = x - sx;
                let dy = y - sy;
                let new_dir = dir_2d(dx, dy, old(self).deadzone as int);
                &&& *final(self) == (AnalogControl {
                    stick_pos: puck_2d(dx, dy, old(self).max_radius as int),
                    state: DirectionState { active: new_dir },
                    ..*old(self)
                })
                &&& models_of(cmds@) == wire_of_events(
                    old(self).map,
                    step_events(old(self).state.active, new_dir),
                )
            },
    {
        if self.locked_out {
            return Vec::new();
        }
        match self.drag_start {
            None => Vec::new(),
            Some((sx, sy)) => {
                let (pos, dir) = classify_2d(sx, sy, x, y, self.max_radius, self.deadzone);
                self.stick_pos = pos;
                let prev = self.state.active;
                let _ = self.state.on_classification(dir);
                transition_commands(self.map, prev, dir)
            },
        }
    }

    /// Pointer up or leave: close the session, rest the puck, and
    /// release the active direction if one is outstanding. Redundant
    /// session ends emit nothing.
    pub fn on_end(&mut self) -> (cmds: Vec<Command>)
        requires
            old(self).wf(),
        ensures
            final(self).wf(),
            *final(self) == (AnalogControl {
                drag_start: None,
                stick_pos: StickPos::Free { x: 0, y: 0 },
                state: DirectionState { active: Direction::Neutral },
                ..*old(self)
            }),
            models_of(cmds@) == wire_of_events(
                old(self).map,
                end_events(old(self).state.active),
            ),
    {
        self.drag_start = None;
        self.stick_pos = StickPos::Free { x: 0, y: 0 };
        let ghost prev = self.state.active;
        let released = self.state.on_session_end();
        end_commands(self.map, released, Ghost(prev))
    }

    /// A latch on this surface was pressed: dispatch its pulse and
    /// hold the lock, suspending drag classification until release.
    pub fn on_latch_press(&mut self, latch: &ButtonLatch) -> (c: Command)
        requires
            old(self).wf(),
            latch.wf(),
        ensures
            final(self).wf(),
            *final(self) == (AnalogControl { locked_out: true, ..*old(self) }),
            action_spec(latch.map, latch.dir) matches Some(n) && c@.name == n,
            c@.value == "blink_once"@,
    {
        self.locked_out = true;
        latch.pulse_command()
    }

    /// The latch was released: drop the lock; classification resumes
    /// with the next move event.
    pub fn on_latch_release(&mut self)
        requires
            old(self).wf(),
        ensures
            final(self).wf(),
            *final(self) == (AnalogControl { locked_out: false, ..*old(self) }),
    {
        self.locked_out = false;
    }
}

} // verus!

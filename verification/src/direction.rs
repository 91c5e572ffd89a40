//! The quantized direction a gesture resolves to, and the mapping from
//! directions to wire action names.

use vstd::prelude::*;

verus! {

/// Classification of a pointer displacement. `Neutral` is a sentinel
/// meaning "no active direction"; it is never sent on the wire.
#[derive(Clone, Copy, PartialEq, Eq, Structural, Debug)]
pub enum Direction {
    Neutral,
    Up,
    Down,
    Left,
    Right,
}

/// Error for operations that structurally require a concrete,
/// non-neutral direction.
#[derive(Clone, Copy, PartialEq, Eq, Structural, Debug)]
pub enum DirectionError {
    NeutralDirection,
}

/// Wire action name of the drive command for a direction.
pub open spec fn drive_action(d: Direction) -> Seq<char> {
    match d {
        Direction::Up => "go_front"@,
        Direction::Down => "go_back"@,
        Direction::Left => "turn_left"@,
        Direction::Right => "turn_right"@,
        Direction::Neutral => Seq::<char>::empty(),
    }
}

/// Icon glyph shown for a direction.
pub open spec fn icon_glyph(d: Direction) -> Seq<char> {
    match d {
        Direction::Up => "↑"@,
        Direction::Down => "↓"@,
        Direction::Left => "←"@,
        Direction::Right => "→"@,
        Direction::Neutral => Seq::<char>::empty(),
    }
}

impl Direction {
    /// Drive action name for a concrete direction. Asking for the
    /// command of `Neutral` is an invariant violation, so it is ruled
    /// out up front rather than silently given a default.
    pub fn to_command(self) -> (r: &'static str)
        requires
            self != Direction::Neutral,
        ensures
            r@ == drive_action(self),
    {
        match self {
            Direction::Up => "go_front",
            Direction::Down => "go_back",
            Direction::Left => "turn_left",
            Direction::Right => "turn_right",
            Direction::Neutral => unreached(),
        }
    }

    /// Icon for a concrete direction; `Neutral` has none and is
    /// reported as an error.
    pub fn icon(self) -> (r: Result<&'static str, DirectionError>)
        ensures
            self == Direction::Neutral ==> r == Err::<&'static str, DirectionError>(
                DirectionError::NeutralDirection,
            ),
            self != Direction::Neutral ==> (r matches Ok(g) && g@ == icon_glyph(self)),
    {
        match self {
            Direction::Up => Ok("↑"),
            Direction::Down => Ok("↓"),
            Direction::Left => Ok("←"),
            Direction::Right => Ok("→"),
            Direction::Neutral => Err(DirectionError::NeutralDirection),
        }
    }
}

/// The family of wire actions a control drives: the drive base, the
/// lift column, or the arm. Each maps a direction to the action name
/// used for its press/release/pulse commands, or to nothing where that
/// control has no action for the direction.
#[derive(Clone, Copy, PartialEq, Eq, Structural, Debug)]
pub enum ActionMap {
    Drive,
    Lift,
    Arm,
}

/// Action name a map assigns to a direction, if any.
pub open spec fn action_spec(m: ActionMap, d: Direction) -> Option<Seq<char>> {
    match m {
        ActionMap::Drive => {
            if d == Direction::Neutral {
                None
            } else {
                Some(drive_action(d))
            }
        },
        ActionMap::Lift => match d {
            Direction::Up => Some("pull_up"@),
            Direction::Down => Some("pull_down"@),
            _ => None,
        },
        ActionMap::Arm => match d {
            Direction::Up => Some("arm_up"@),
            Direction::Down => Some("arm_down"@),
            _ => None,
        },
    }
}

impl ActionMap {
    /// Action name this map assigns to `d`, if any.
    pub fn action_name(self, d: Direction) -> (r: Option<&'static str>)
        ensures
            r matches Some(n) ==> action_spec(self, d) == Some(n@),
            r is None ==> action_spec(self, d) is None,
    {
        match self {
            ActionMap::Drive => match d {
                Direction::Neutral => None,
                _ => Some(d.to_command()),
            },
            ActionMap::Lift => match d {
                Direction::Up => Some("pull_up"),
                Direction::Down => Some("pull_down"),
                _ => None,
            },
            ActionMap::Arm => match d {
                Direction::Up => Some("arm_up"),
                Direction::Down => Some("arm_down"),
                _ => None,
            },
        }
    }
}

} // verus!

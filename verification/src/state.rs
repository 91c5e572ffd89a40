//! The per-control direction state machine: one cell holding the
//! currently active direction, and the release/press pairs a change of
//! classification emits. A mathematical trace of emitted direction
//! events backs the ordering laws.

use vstd::prelude::*;
use crate::direction::Direction;

verus! {

/// One directional event handed to the dispatcher: the release of a
/// previously pressed direction, or the press of a new one.
#[derive(Clone, Copy, PartialEq, Eq, Structural, Debug)]
pub enum DirEvent {
    Release(Direction),
    Press(Direction),
}

/// Events one classification step emits, in dispatch order: nothing if
/// the classification repeats the active direction; otherwise the
/// release of the old direction (if concrete) followed by the press of
/// the new one (if concrete), as a single ordered unit.
pub open spec fn step_events(prev: Direction, new: Direction) -> Seq<DirEvent> {
    if new == prev {
        Seq::<DirEvent>::empty()
    } else {
        (if prev != Direction::Neutral {
            seq![DirEvent::Release(prev)]
        } else {
            Seq::<DirEvent>::empty()
        }) + (if new != Direction::Neutral {
            seq![DirEvent::Press(new)]
        } else {
            Seq::<DirEvent>::empty()
        })
    }
}

/// Events a session end emits: the release of the active direction, if
/// one is active; nothing otherwise.
pub open spec fn end_events(active: Direction) -> Seq<DirEvent> {
    if active != Direction::Neutral {
        seq![DirEvent::Release(active)]
    } else {
        Seq::<DirEvent>::empty()
    }
}

/// Trace of events emitted by a run of classifications from a given
/// active direction.
pub open spec fn trace_from(active: Direction, dirs: Seq<Direction>) -> Seq<DirEvent>
    decreases dirs.len(),
{
    if dirs.len() == 0 {
        Seq::<DirEvent>::empty()
    } else {
        step_events(active, dirs[0]) + trace_from(dirs[0], dirs.drop_first())
    }
}

/// Active direction after a run of classifications.
pub open spec fn active_after(start: Direction, dirs: Seq<Direction>) -> Direction {
    if dirs.len() == 0 {
        start
    } else {
        dirs.last()
    }
}

/// Trace of a whole drag session: classifications from Neutral, closed
/// by the session end.
pub open spec fn session_trace(dirs: Seq<Direction>) -> Seq<DirEvent> {
    trace_from(Direction::Neutral, dirs) + end_events(active_after(Direction::Neutral, dirs))
}

/// The outstanding press, if any, that a concrete active direction
/// stands for.
pub open spec fn pending_of(active: Direction) -> Option<Direction> {
    if active == Direction::Neutral {
        None
    } else {
        Some(active)
    }
}

/// Well-formedness of an event trace, given which press is outstanding
/// when it starts: every press names a concrete direction and occurs
/// only while no press is outstanding; every release names exactly the
/// outstanding press. In particular no two presses occur without an
/// intervening release of the first, and no release lacks its press.
pub open spec fn events_ok(pending: Option<Direction>, t: Seq<DirEvent>) -> bool
    decreases t.len(),
{
    if t.len() == 0 {
        true
    } else {
        match t[0] {
            DirEvent::Press(d) => d != Direction::Neutral && pending is None && events_ok(
                Some(d),
                t.drop_first(),
            ),
            DirEvent::Release(d) => d != Direction::Neutral && pending == Some(d) && events_ok(
                None,
                t.drop_first(),
            ),
        }
    }
}

/// The outstanding press after a trace runs from a given one.
pub open spec fn pending_after(pending: Option<Direction>, t: Seq<DirEvent>) -> Option<
    Direction,
>
    decreases t.len(),
{
    if t.len() == 0 {
        pending
    } else {
        match t[0] {
            DirEvent::Press(d) => pending_after(Some(d), t.drop_first()),
            DirEvent::Release(_) => pending_after(None, t.drop_first()),
        }
    }
}

/// A well-formed trace followed by a trace well-formed from its final
/// outstanding press is well-formed as a whole.
proof fn lemma_events_ok_concat(pending: Option<Direction>, a: Seq<DirEvent>, b: Seq<DirEvent>)
    requires
        events_ok(pending, a),
        events_ok(pending_after(pending, a), b),
    ensures
        events_ok(pending, a + b),
        pending_after(pending, a + b) == pending_after(pending_after(pending, a), b),
    decreases a.len(),
{
    if a.len() == 0 {
        assert(a + b =~= b);
    } else {
        let rest = a.drop_first();
        match a[0] {
            DirEvent::Press(d) => {
                lemma_events_ok_concat(Some(d), rest, b);
                assert((a + b).drop_first() =~= rest + b);
            },
            DirEvent::Release(_) => {
                lemma_events_ok_concat(None, rest, b);
                assert((a + b).drop_first() =~= rest + b);
            },
        }
    }
}

/// One classification step emits a well-formed unit: from the
/// outstanding press of the old active direction to that of the new.
proof fn lemma_step_events_ok(prev: Direction, new: Direction)
    ensures
        events_ok(pending_of(prev), step_events(prev, new)),
        pending_after(pending_of(prev), step_events(prev, new)) == pending_of(new),
{
    reveal_with_fuel(events_ok, 4);
    reveal_with_fuel(pending_after, 4);
    let es = step_events(prev, new);
    if new != prev {
        if prev != Direction::Neutral && new != Direction::Neutral {
            assert(es =~= seq![DirEvent::Release(prev), DirEvent::Press(new)]);
            assert(es.drop_first() =~= seq![DirEvent::Press(new)]);
            assert(es.drop_first().drop_first() =~= Seq::<DirEvent>::empty());
        } else if prev != Direction::Neutral {
            assert(es =~= seq![DirEvent::Release(prev)]);
            assert(es.drop_first() =~= Seq::<DirEvent>::empty());
        } else if new != Direction::Neutral {
            assert(es =~= seq![DirEvent::Press(new)]);
            assert(es.drop_first() =~= Seq::<DirEvent>::empty());
        } else {
            assert(es =~= Seq::<DirEvent>::empty());
        }
    }
}

/// Any run of classifications emits a well-formed trace, leaving the
/// outstanding press of its final active direction.
proof fn lemma_trace_ok(active: Direction, dirs: Seq<Direction>)
    ensures
        events_ok(pending_of(active), trace_from(active, dirs)),
        pending_after(pending_of(active), trace_from(active, dirs)) == pending_of(
            active_after(active, dirs),
        ),
    decreases dirs.len(),
{
    if dirs.len() > 0 {
        lemma_step_events_ok(active, dirs[0]);
        lemma_trace_ok(dirs[0], dirs.drop_first());
        lemma_events_ok_concat(
            pending_of(active),
            step_events(active, dirs[0]),
            trace_from(dirs[0], dirs.drop_first()),
        );
        if dirs.len() > 1 {
            assert(dirs.drop_first().last() == dirs.last());
        }
    }
}

/// Law: over any drag session — any sequence of classifications
/// starting from Neutral, closed by a session end — the emitted
/// direction events are properly paired: every press names a concrete
/// direction, no press occurs while another press is outstanding, each
/// release names exactly the outstanding press, and the session ends
/// with none outstanding. In particular the dispatcher never sees two
/// presses without an intervening release of the first, nor a press
/// left unreleased at session end.
pub proof fn lemma_session_events_paired(dirs: Seq<Direction>)
    ensures
        events_ok(None, session_trace(dirs)),
        pending_after(None, session_trace(dirs)) is None,
{
    let active = active_after(Direction::Neutral, dirs);
    lemma_trace_ok(Direction::Neutral, dirs);
    let tail = end_events(active);
    assert(events_ok(pending_of(active), tail) && pending_after(pending_of(active), tail)
        is None) by {
        reveal_with_fuel(events_ok, 3);
        reveal_with_fuel(pending_after, 3);
        if active != Direction::Neutral {
            assert(tail =~= seq![DirEvent::Release(active)]);
            assert(tail.drop_first() =~= Seq::<DirEvent>::empty());
        }
    }
    lemma_events_ok_concat(None, trace_from(Direction::Neutral, dirs), tail);
}

/// Law: a classification equal to the active direction emits nothing,
/// so repeating a classification adds no events to the trace.
pub proof fn lemma_classification_idempotent(active: Direction, dirs: Seq<Direction>, d: Direction)
    requires
        active_after(active, dirs) == d,
    ensures
        step_events(d, d) == Seq::<DirEvent>::empty(),
        trace_from(active, dirs.push(d)) == trace_from(active, dirs),
    decreases dirs.len(),
{
    if dirs.len() == 0 {
        assert(dirs.push(d) =~= seq![d]);
        assert(trace_from(active, seq![d]) =~= step_events(active, d) + trace_from(
            d,
            seq![d].drop_first(),
        ));
        assert(seq![d].drop_first() =~= Seq::<Direction>::empty());
        assert(trace_from(active, dirs.push(d)) =~= trace_from(active, dirs));
    } else {
        lemma_classification_idempotent(dirs[0], dirs.drop_first(), d);
        assert(dirs.push(d).drop_first() =~= dirs.drop_first().push(d));
        assert(trace_from(active, dirs.push(d)) =~= trace_from(active, dirs));
    }
}

/// Law: ending a session with a concrete active direction emits
/// exactly one event, the release of that direction, and leaves the
/// state Neutral; ending it again at once emits nothing.
pub proof fn lemma_session_end_once(active: Direction)
    ensures
        active != Direction::Neutral ==> end_events(active) == seq![DirEvent::Release(active)],
        end_events(Direction::Neutral) == Seq::<DirEvent>::empty(),
{
}

/// The single mutable cell a control owns: the last direction a press
/// command was issued for, or Neutral when none is outstanding.
#[derive(Clone, Copy, PartialEq, Eq, Structural, Debug)]
pub struct DirectionState {
    pub active: Direction,
}

/// The direction events of one transition, as an (ordered) pair of
/// optional release and press.
pub open spec fn pair_events(release: Option<Direction>, press: Option<Direction>) -> Seq<
    DirEvent,
> {
    (match release {
        Some(d) => seq![DirEvent::Release(d)],
        None => Seq::<DirEvent>::empty(),
    }) + (match press {
        Some(d) => seq![DirEvent::Press(d)],
        None => Seq::<DirEvent>::empty(),
    })
}

impl DirectionState {
    /// A fresh control starts, and after re-creation restarts, at
    /// Neutral.
    pub fn new() -> (s: DirectionState)
        ensures
            s.active == Direction::Neutral,
    {
        DirectionState { active: Direction::Neutral }
    }

    /// Take a new classification. The active direction is updated
    /// synchronously; the returned pair is what must then be
    /// dispatched, release strictly before press. A classification
    /// equal to the active direction is a no-op and dispatches
    /// nothing.
    pub fn on_classification(&mut self, new_dir: Direction) -> (r: (
        Option<Direction>,
        Option<Direction>,
    ))
        ensures
            final(self).active == new_dir,
            pair_events(r.0, r.1) == step_events(old(self).active, new_dir),
            new_dir == old(self).active ==> r.0 is None && r.1 is None,
            new_dir != old(self).active ==> r.0 == pending_of(old(self).active) && r.1
                == pending_of(new_dir),
    {
        let prev = self.active;
        if new_dir == prev {
            proof {
                assert(pair_events(None, None) =~= step_events(prev, new_dir));
            }
            return (None, None);
        }
        self.active = new_dir;
        let release = if prev != Direction::Neutral {
            Some(prev)
        } else {
            None
        };
        let press = if new_dir != Direction::Neutral {
            Some(new_dir)
        } else {
            None
        };
        proof {
            assert(pair_events(release, press) =~= step_events(prev, new_dir));
        }
        (release, press)
    }

    /// End the session: release the active direction if one is
    /// outstanding, and reset to Neutral. Redundant calls are no-ops.
    pub fn on_session_end(&mut self) -> (r: Option<Direction>)
        ensures
            final(self).active == Direction::Neutral,
            r == pending_of(old(self).active),
            (match r {
                Some(d) => end_events(old(self).active) == seq![DirEvent::Release(d)],
                None => end_events(old(self).active) == Seq::<DirEvent>::empty(),
            }),
    {
        let prev = self.active;
        self.active = Direction::Neutral;
        if prev != Direction::Neutral {
            Some(prev)
        } else {
            None
        }
    }
}

} // verus!

use vstd::prelude::*;
use crate::command::{BurtleCommand, Effect, Point, Rgba, Segment, Waypoint};

verus! {

/// A displacement handed back by the host for one move.
pub type Offset = (i64, i64);

/// The whole state of one turtle, as the contracts see it.
pub struct TurtleView {
    pub position: Point,
    pub heading: i64,
    pub pen_down: bool,
    pub pen_size: i64,
    pub pen_color: Rgba,
    /// The last element is the most recently saved waypoint.
    pub waypoints: Seq<Waypoint>,
    /// The front of the queue is element 0.
    pub queue: Seq<BurtleCommand>,
}

/// What carrying out the front command does.
pub struct Outcome {
    pub state: TurtleView,
    pub effects: Seq<Effect>,
    /// True when the command ends the current stepping call.
    pub halt: bool,
}

/// The distance of a move command.
pub open spec fn move_distance(c: BurtleCommand) -> Option<i64> {
    match c {
        BurtleCommand::MoveForward(d) => Some(d),
        BurtleCommand::MoveBackward(d) => Some(d),
        _ => None,
    }
}

/// A command that leaves the waypoint stack alone and never ends a stepping
/// call.
pub open spec fn is_plain(c: BurtleCommand) -> bool {
    match c {
        BurtleCommand::Wait(_) => false,
        BurtleCommand::AddWaypoint => false,
        BurtleCommand::RestoreWaypoint => false,
        _ => true,
    }
}

/// A command that moves the turtle.
pub open spec fn is_motion(c: BurtleCommand) -> bool {
    match c {
        BurtleCommand::MoveForward(_) => true,
        BurtleCommand::MoveBackward(_) => true,
        BurtleCommand::GoTo(_, _) => true,
        _ => false,
    }
}

/// The point reached by subtracting a displacement, wrapping on overflow.
pub open spec fn displaced(p: Point, off: Offset) -> Point {
    Point { x: p.x.wrapping_sub(off.0), y: p.y.wrapping_sub(off.1) }
}

/// Move to `to` with the rest of the queue, drawing a segment if the pen is down.
pub open spec fn relocate(s: TurtleView, rest: Seq<BurtleCommand>, to: Point) -> Outcome {
    Outcome {
        state: TurtleView { position: to, queue: rest, ..s },
        effects: if s.pen_down {
            seq![Effect::Draw(Segment { from: s.position, to, color: s.pen_color, width: s.pen_size })]
        } else {
            seq![]
        },
        halt: false,
    }
}

pub open spec fn proceed(s: TurtleView, effects: Seq<Effect>) -> Outcome {
    Outcome { state: s, effects, halt: false }
}

/// The waypoint that `RestoreWaypoint` returns to, and the stack left after it.
pub open spec fn restore_target(ws: Seq<Waypoint>) -> (Waypoint, Seq<Waypoint>) {
    if ws.len() == 0 {
        (Waypoint { position: Point::spec_origin(), heading: 0 }, ws)
    } else {
        (ws.last(), ws.drop_last())
    }
}

/// Carrying out the front command of a non-empty queue. `off` is the
/// displacement for a move command and is not read for any other.
pub open spec fn apply_front(s: TurtleView, off: Offset) -> Outcome {
    let rest = s.queue.drop_first();
    let t = TurtleView { queue: rest, ..s };
    match s.queue[0] {
        BurtleCommand::PenUp => proceed(TurtleView { pen_down: false, ..t }, seq![]),
        BurtleCommand::PenDown => proceed(TurtleView { pen_down: true, ..t }, seq![]),
        BurtleCommand::TurnLeft(a) => proceed(TurtleView { heading: s.heading.wrapping_add(a), ..t }, seq![]),
        BurtleCommand::TurnRight(a) => proceed(TurtleView { heading: s.heading.wrapping_sub(a), ..t }, seq![]),
        BurtleCommand::MoveForward(_) => relocate(s, rest, displaced(s.position, off)),
        BurtleCommand::MoveBackward(_) => relocate(s, rest, displaced(s.position, off)),
        BurtleCommand::SetPenColor(c) => proceed(TurtleView { pen_color: c, ..t }, seq![]),
        BurtleCommand::SetPenSize(w) => proceed(TurtleView { pen_size: w, ..t }, seq![]),
        BurtleCommand::SetSize(z) => proceed(t, seq![Effect::Resize(z)]),
        BurtleCommand::GoTo(x, y) => relocate(s, rest, Point { x, y }),
        BurtleCommand::SetHeading(h) => proceed(TurtleView { heading: h, ..t }, seq![]),
        BurtleCommand::Wait(n) => if n == 0 {
            proceed(t, seq![])
        } else {
            Outcome {
                state: TurtleView { queue: seq![BurtleCommand::Wait((n - 1) as u32)] + rest, ..s },
                effects: seq![],
                halt: true,
            }
        },
        BurtleCommand::Clear => proceed(t, seq![Effect::ClearAll]),
        BurtleCommand::AddWaypoint => proceed(
            TurtleView {
                waypoints: s.waypoints.push(Waypoint { position: s.position, heading: s.heading }),
                ..t
            },
            seq![],
        ),
        BurtleCommand::RestoreWaypoint => {
            let (w, ws) = restore_target(s.waypoints);
            proceed(
                TurtleView {
                    waypoints: ws,
                    queue: seq![
                        BurtleCommand::SetHeading(w.heading),
                        BurtleCommand::GoTo(w.position.x, w.position.y),
                    ] + rest,
                    ..s
                },
                seq![],
            )
        },
    }
}

/// The displacements left once the first is used; none are left of none.
pub open spec fn rest_of(offs: Seq<Offset>) -> Seq<Offset> {
    if offs.len() == 0 {
        offs
    } else {
        offs.drop_first()
    }
}

/// The displacements left once the first `m` are used.
pub open spec fn skip_n(offs: Seq<Offset>, m: nat) -> Seq<Offset>
    decreases m,
{
    if m == 0 {
        offs
    } else {
        skip_n(rest_of(offs), (m - 1) as nat)
    }
}

/// At most `budget` commands carried out from the front of the queue, stopping
/// early when the queue runs dry or a command ends the call. `offs[i]` is the
/// displacement for the `i`-th of them, read only where it is a move.
pub open spec fn run(s: TurtleView, budget: nat, offs: Seq<Offset>) -> (TurtleView, Seq<Effect>)
    decreases budget,
{
    if budget == 0 || s.queue.len() == 0 {
        (s, seq![])
    } else {
        let o = apply_front(s, offs[0]);
        if o.halt {
            (o.state, o.effects)
        } else {
            let r = run(o.state, (budget - 1) as nat, rest_of(offs));
            (r.0, o.effects + r.1)
        }
    }
}

/// Every move among the commands that `run(s, budget, offs)` carries out got
/// its displacement from `f`, at the heading the turtle had then.
pub open spec fn offsets_from<F: Fn(i64, i64) -> Offset>(
    f: F,
    s: TurtleView,
    budget: nat,
    offs: Seq<Offset>,
) -> bool
    decreases budget,
{
    if budget == 0 || s.queue.len() == 0 {
        true
    } else {
        let o = apply_front(s, offs[0]);
        &&& (match move_distance(s.queue[0]) {
            Some(d) => f.ensures((s.heading, d), offs[0]),
            None => true,
        })
        &&& (o.halt || offsets_from(f, o.state, (budget - 1) as nat, rest_of(offs)))
    }
}

/// One stepping call: as many commands as were queued when it began.
pub open spec fn frame(s: TurtleView, offs: Seq<Offset>) -> (TurtleView, Seq<Effect>) {
    run(s, s.queue.len(), offs)
}

/// Successive stepping calls; `offss[j]` holds the displacements of the `j`-th.
pub open spec fn frames(s: TurtleView, offss: Seq<Seq<Offset>>) -> (TurtleView, Seq<Effect>)
    decreases offss.len(),
{
    if offss.len() == 0 {
        (s, seq![])
    } else {
        let f = frame(s, offss[0]);
        let r = frames(f.0, offss.skip(1));
        (r.0, f.1 + r.1)
    }
}

/// The segments on the canvas after it carries out `effs`, starting from `segs`.
pub open spec fn drawn(segs: Seq<Segment>, effs: Seq<Effect>) -> Seq<Segment>
    decreases effs.len(),
{
    if effs.len() == 0 {
        segs
    } else {
        let next = match effs[0] {
            Effect::Draw(g) => segs.push(g),
            Effect::ClearAll => seq![],
            Effect::Resize(_) => segs,
        };
        drawn(next, effs.skip(1))
    }
}

} // verus!

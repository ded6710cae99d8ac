use vstd::prelude::*;
use std::collections::VecDeque;
use crate::command::{BurtleCommand, Effect, Point, Rgba, Segment, Waypoint};
use crate::model::{apply_front, frame, move_distance, offsets_from, rest_of, run, Offset, TurtleView};

verus! {

/// One turtle: its pen, heading and position, its saved waypoints, and the
/// commands it has still to carry out. The builder methods append to the
/// queue; `step` consumes it.
pub struct Burtle {
    position: Point,
    heading: i64,
    pen_state: bool,
    pen_size: i64,
    pen_color: Rgba,
    waypoints: Vec<Waypoint>,
    instruction: VecDeque<BurtleCommand>,
}

impl View for Burtle {
    type V = TurtleView;

    closed spec fn view(&self) -> TurtleView {
        TurtleView {
            position: self.position,
            heading: self.heading,
            pen_down: self.pen_state,
            pen_size: self.pen_size,
            pen_color: self.pen_color,
            waypoints: self.waypoints@,
            queue: self.instruction@,
        }
    }
}

/// The state of a fresh turtle at the origin with the given queue: facing
/// along the positive X axis, pen up, black, width 2, no waypoints.
pub open spec fn initial(queue: Seq<BurtleCommand>) -> TurtleView {
    TurtleView {
        position: Point::spec_origin(),
        heading: 0,
        pen_down: false,
        pen_size: 2,
        pen_color: Rgba::spec_black(),
        waypoints: seq![],
        queue,
    }
}

impl Default for Burtle {
    fn default() -> (t: Burtle)
        ensures
            t@ == initial(seq![]),
    {
        Burtle {
            position: Point { x: 0, y: 0 },
            heading: 0,
            pen_state: false,
            pen_size: 2,
            pen_color: Rgba::black(),
            waypoints: Vec::new(),
            instruction: VecDeque::new(),
        }
    }
}

impl Burtle {
    pub fn new() -> (t: Burtle)
        ensures
            t@ == initial(seq![]),
    {
        Burtle::default()
    }

    /// The state with one more command at the back of the queue.
    pub open spec fn spec_enqueued(s: TurtleView, c: BurtleCommand) -> TurtleView {
        TurtleView { queue: s.queue.push(c), ..s }
    }

    fn enqueue(&mut self, c: BurtleCommand)
        ensures
            final(self)@ == Burtle::spec_enqueued(old(self)@, c),
    {
        self.instruction.push_back(c);
    }

    pub fn right(&mut self, angle: i64)
        ensures
            final(self)@ == Burtle::spec_enqueued(old(self)@, BurtleCommand::TurnRight(angle)),
    {
        self.enqueue(BurtleCommand::TurnRight(angle))
    }

    pub fn left(&mut self, angle: i64)
        ensures
            final(self)@ == Burtle::spec_enqueued(old(self)@, BurtleCommand::TurnLeft(angle)),
    {
        self.enqueue(BurtleCommand::TurnLeft(angle))
    }

    pub fn forward(&mut self, pixels: i64)
        ensures
            final(self)@ == Burtle::spec_enqueued(old(self)@, BurtleCommand::MoveForward(pixels)),
    {
        self.enqueue(BurtleCommand::MoveForward(pixels))
    }

    pub fn backward(&mut self, pixels: i64)
        ensures
            final(self)@ == Burtle::spec_enqueued(old(self)@, BurtleCommand::MoveBackward(pixels)),
    {
        self.enqueue(BurtleCommand::MoveBackward(pixels))
    }

    pub fn pen_up(&mut self)
        ensures
            final(self)@ == Burtle::spec_enqueued(old(self)@, BurtleCommand::PenUp),
    {
        self.enqueue(BurtleCommand::PenUp)
    }

    pub fn pen_down(&mut self)
        ensures
            final(self)@ == Burtle::spec_enqueued(old(self)@, BurtleCommand::PenDown),
    {
        self.enqueue(BurtleCommand::PenDown)
    }

    pub fn set_pen_color(&mut self, color: Rgba)
        ensures
            final(self)@ == Burtle::spec_enqueued(old(self)@, BurtleCommand::SetPenColor(color)),
    {
        self.enqueue(BurtleCommand::SetPenColor(color))
    }

    pub fn set_pen_size(&mut self, size: i64)
        ensures
            final(self)@ == Burtle::spec_enqueued(old(self)@, BurtleCommand::SetPenSize(size)),
    {
        self.enqueue(BurtleCommand::SetPenSize(size))
    }

    pub fn set_size(&mut self, size: i64)
        ensures
            final(self)@ == Burtle::spec_enqueued(old(self)@, BurtleCommand::SetSize(size)),
    {
        self.enqueue(BurtleCommand::SetSize(size))
    }

    pub fn goto(&mut self, x: i64, y: i64)
        ensures
            final(self)@ == Burtle::spec_enqueued(old(self)@, BurtleCommand::GoTo(x, y)),
    {
        self.enqueue(BurtleCommand::GoTo(x, y))
    }

    pub fn set_heading(&mut self, direction: i64)
        ensures
            final(self)@ == Burtle::spec_enqueued(old(self)@, BurtleCommand::SetHeading(direction)),
    {
        self.enqueue(BurtleCommand::SetHeading(direction))
    }

    pub fn wait(&mut self, frames: u32)
        ensures
            final(self)@ == Burtle::spec_enqueued(old(self)@, BurtleCommand::Wait(frames)),
    {
        self.enqueue(BurtleCommand::Wait(frames))
    }

    pub fn clear(&mut self)
        ensures
            final(self)@ == Burtle::spec_enqueued(old(self)@, BurtleCommand::Clear),
    {
        self.enqueue(BurtleCommand::Clear)
    }

    /// Queues a return to the origin followed by a clear of the canvas.
    pub fn reset(&mut self)
        ensures
            final(self)@ == Burtle::spec_enqueued(
                Burtle::spec_enqueued(old(self)@, BurtleCommand::GoTo(0, 0)),
                BurtleCommand::Clear,
            ),
    {
        self.enqueue(BurtleCommand::GoTo(0, 0));
        self.enqueue(BurtleCommand::Clear)
    }

    pub fn set_waypoint(&mut self)
        ensures
            final(self)@ == Burtle::spec_enqueued(old(self)@, BurtleCommand::AddWaypoint),
    {
        self.enqueue(BurtleCommand::AddWaypoint)
    }

    pub fn goto_waypoint(&mut self)
        ensures
            final(self)@ == Burtle::spec_enqueued(old(self)@, BurtleCommand::RestoreWaypoint),
    {
        self.enqueue(BurtleCommand::RestoreWaypoint)
    }

    /// Hands the queue over, ready for a turtle to be made from it.
    pub fn into_instruction(self) -> (b: BurtleInstruction)
        ensures
            b@ == self@.queue,
    {
        BurtleInstruction(self.instruction)
    }

    pub fn position(&self) -> (p: Point)
        ensures
            p == self@.position,
    {
        self.position
    }

    pub fn heading(&self) -> (h: i64)
        ensures
            h == self@.heading,
    {
        self.heading
    }

    pub fn is_pen_down(&self) -> (b: bool)
        ensures
            b == self@.pen_down,
    {
        self.pen_state
    }

    pub fn pen_size(&self) -> (w: i64)
        ensures
            w == self@.pen_size,
    {
        self.pen_size
    }

    pub fn pen_color(&self) -> (c: Rgba)
        ensures
            c == self@.pen_color,
    {
        self.pen_color
    }

    /// The saved waypoints, the most recent last.
    pub fn waypoints(&self) -> (ws: &Vec<Waypoint>)
        ensures
            ws@ == self@.waypoints,
    {
        &self.waypoints
    }

    /// The pending commands, front first.
    pub fn pending(&self) -> (cs: Vec<BurtleCommand>)
        ensures
            cs@ == self@.queue,
    {
        let mut cs: Vec<BurtleCommand> = Vec::new();
        let mut i: usize = 0;
        while i < self.instruction.len()
            invariant
                i <= self.instruction@.len(),
                cs@ == self.instruction@.take(i as int),
            decreases self.instruction@.len() - i,
        {
            cs.push(self.instruction[i]);
            i = i + 1;
            assert(cs@ =~= self.instruction@.take(i as int));
        }
        assert(self.instruction@.take(i as int) =~= self.instruction@);
        cs
    }

    /// Whether no command is pending.
    pub fn is_idle(&self) -> (b: bool)
        ensures
            b == (self@.queue.len() == 0),
    {
        self.instruction.len() == 0
    }

    /// One stepping call, made once per frame. It carries out at most as many
    /// commands as were queued when it began, and stops early when a `Wait`
    /// holds the queue. `offset(heading, distance)` gives the displacement of a
    /// move, which is subtracted from the position. Returns what the canvas is
    /// to do, in order.
    pub fn step<F: Fn(i64, i64) -> (i64, i64)>(&mut self, offset: &F) -> (effects: Vec<Effect>)
        requires
            forall|h: i64, d: i64| offset.requires((h, d)),
        ensures
            exists|offs: Seq<Offset>|
                {
                    &&& offsets_from(*offset, old(self)@, old(self)@.queue.len(), offs)
                    &&& frame(old(self)@, offs) == (final(self)@, effects@)
                },
    {
        let n = self.instruction.len();
        let ghost s0 = self@;
        let ghost mut done: Seq<Offset> = seq![];
        let mut effects: Vec<Effect> = Vec::new();
        let mut i: usize = 0;
        let mut halt = false;
        while i < n && !halt
            invariant
                i <= n,
                n == s0.queue.len(),
                forall|h: i64, d: i64| offset.requires((h, d)),
                halt ==> forall|x: Seq<Offset>|
                    #[trigger] run(s0, n as nat, done + x) == (self@, effects@),
                halt ==> forall|x: Seq<Offset>| #[trigger] offsets_from(*offset, s0, n as nat, done + x),
                !halt ==> forall|x: Seq<Offset>|
                    #[trigger] run(s0, n as nat, done + x) == (
                        run(self@, (n - i) as nat, x).0,
                        effects@ + run(self@, (n - i) as nat, x).1,
                    ),
                !halt ==> forall|x: Seq<Offset>|
                    #[trigger] offsets_from(*offset, s0, n as nat, done + x) == offsets_from(
                        *offset,
                        self@,
                        (n - i) as nat,
                        x,
                    ),
            decreases n - i,
        {
            if self.instruction.len() == 0 {
                proof {
                    assert forall|x: Seq<Offset>| #[trigger] run(self@, 0, x) == run(self@, (n - i) as nat, x) by {}
                    assert forall|x: Seq<Offset>|
                        #[trigger] offsets_from(*offset, self@, 0, x) == offsets_from(*offset, self@, (n - i) as nat, x) by {}
                }
                i = n;
            } else {
                let ghost before = self@;
                let ghost old_effects = effects@;
                let cmd = self.instruction[0];
                let off: (i64, i64) = match cmd {
                    BurtleCommand::MoveForward(d) => offset(self.heading, d),
                    BurtleCommand::MoveBackward(d) => offset(self.heading, d),
                    _ => (0, 0),
                };
                proof {
                    assert(match move_distance(before.queue[0]) {
                        Some(d) => offset.ensures((before.heading, d), off),
                        None => true,
                    });
                }
                halt = self.execute(off, &mut effects);
                proof {
                    assert forall|x: Seq<Offset>|
                        #[trigger] run(s0, n as nat, done.push(off) + x) == (if halt {
                            (self@, effects@)
                        } else {
                            (run(self@, (n - i - 1) as nat, x).0, effects@ + run(self@, (n - i - 1) as nat, x).1)
                        }) by {
                        let y = seq![off] + x;
                        assert(done.push(off) + x =~= done + y);
                        assert(y[0] == off);
                        assert(rest_of(y) =~= x);
                        if !halt {
                            let r = run(self@, (n - i - 1) as nat, x);
                            assert(old_effects + (effects@.subrange(old_effects.len() as int, effects@.len() as int) + r.1)
                                =~= effects@ + r.1);
                            assert(effects@.subrange(old_effects.len() as int, effects@.len() as int)
                                =~= apply_front(before, off).effects);
                        }
                    }
                    assert forall|x: Seq<Offset>|
                        #[trigger] offsets_from(*offset, s0, n as nat, done.push(off) + x) == (halt
                            || offsets_from(*offset, self@, (n - i - 1) as nat, x)) by {
                        let y = seq![off] + x;
                        assert(done.push(off) + x =~= done + y);
                        assert(y[0] == off);
                        assert(rest_of(y) =~= x);
                    }
                    done = done.push(off);
                }
                i = i + 1;
            }
        }
        proof {
            if !halt {
                assert(run(s0, n as nat, done + seq![]) == (self@, effects@ + seq![]));
                assert(effects@ + seq![] =~= effects@);
                assert(offsets_from(*offset, s0, n as nat, done + seq![]));
            } else {
                assert(run(s0, n as nat, done + seq![]) == (self@, effects@));
                assert(offsets_from(*offset, s0, n as nat, done + seq![]));
            }
            assert(done + seq![] =~= done);
            assert(offsets_from(*offset, s0, s0.queue.len(), done));
            assert(frame(s0, done) == (self@, effects@));
        }
        effects
    }

    /// Carries out the front command; `off` is the displacement of a move.
    /// Returns whether the command ends the stepping call.
    fn execute(&mut self, off: Offset, effects: &mut Vec<Effect>) -> (halt: bool)
        requires
            old(self)@.queue.len() > 0,
        ensures
            final(self)@ == apply_front(old(self)@, off).state,
            final(effects)@ == old(effects)@ + apply_front(old(self)@, off).effects,
            halt == apply_front(old(self)@, off).halt,
    {
        let ghost s = self@;
        let cmd = self.instruction.pop_front().unwrap();
        assert(self.instruction@ =~= s.queue.drop_first());
        match cmd {
            BurtleCommand::PenUp => {
                self.pen_state = false;
            },
            BurtleCommand::PenDown => {
                self.pen_state = true;
            },
            BurtleCommand::TurnLeft(a) => {
                self.heading = self.heading.wrapping_add(a);
            },
            BurtleCommand::TurnRight(a) => {
                self.heading = self.heading.wrapping_sub(a);
            },
            BurtleCommand::MoveForward(_) | BurtleCommand::MoveBackward(_) => {
                let to = Point {
                    x: self.position.x.wrapping_sub(off.0),
                    y: self.position.y.wrapping_sub(off.1),
                };
                self.relocate(to, effects);
            },
            BurtleCommand::SetPenColor(c) => {
                self.pen_color = c;
            },
            BurtleCommand::SetPenSize(w) => {
                self.pen_size = w;
            },
            BurtleCommand::SetSize(z) => {
                effects.push(Effect::Resize(z));
            },
            BurtleCommand::GoTo(x, y) => {
                self.relocate(Point { x, y }, effects);
            },
            BurtleCommand::SetHeading(h) => {
                self.heading = h;
            },
            BurtleCommand::Wait(n) => {
                if n > 0 {
                    self.instruction.push_front(BurtleCommand::Wait(n - 1));
                    return true;
                }
            },
            BurtleCommand::Clear => {
                effects.push(Effect::ClearAll);
            },
            BurtleCommand::AddWaypoint => {
                self.waypoints.push(Waypoint { position: self.position, heading: self.heading });
            },
            BurtleCommand::RestoreWaypoint => {
                let w = match self.waypoints.pop() {
                    Some(w) => w,
                    None => Waypoint { position: Point { x: 0, y: 0 }, heading: 0 },
                };
                self.instruction.push_front(BurtleCommand::GoTo(w.position.x, w.position.y));
                self.instruction.push_front(BurtleCommand::SetHeading(w.heading));
            },
        }
        proof {
            assert(self.instruction@ =~= apply_front(s, off).state.queue);
            assert(self.waypoints@ =~= apply_front(s, off).state.waypoints);
        }
        false
    }

    /// Moves to `to`, drawing a segment from the old position if the pen is down.
    fn relocate(&mut self, to: Point, effects: &mut Vec<Effect>)
        ensures
            final(self)@ == (TurtleView { position: to, ..old(self)@ }),
            final(effects)@ == old(effects)@ + (if old(self).pen_state {
                seq![Effect::Draw(Segment { from: old(self).position, to, color: old(self).pen_color, width: old(self).pen_size })]
            } else {
                seq![]
            }),
    {
        if self.pen_state {
            effects.push(
                Effect::Draw(
                    Segment { from: self.position, to, color: self.pen_color, width: self.pen_size },
                ),
            );
        }
        self.position = to;
        proof {
            assert(effects@ =~= old(effects)@ + (if old(self).pen_state {
                seq![Effect::Draw(Segment { from: old(self).position, to, color: old(self).pen_color, width: old(self).pen_size })]
            } else {
                seq![]
            }));
        }
    }
}

/// A finished command queue, handed by value to the turtles made from it.
pub struct BurtleInstruction(VecDeque<BurtleCommand>);

impl View for BurtleInstruction {
    type V = Seq<BurtleCommand>;

    closed spec fn view(&self) -> Seq<BurtleCommand> {
        self.0@
    }
}

impl BurtleInstruction {
    /// A fresh turtle with its own copy of the queue: later changes to either
    /// leave the other alone.
    pub fn spawn(&self) -> (t: Burtle)
        ensures
            t@ == initial(self@),
    {
        let mut queue: VecDeque<BurtleCommand> = VecDeque::new();
        let mut i: usize = 0;
        while i < self.0.len()
            invariant
                i <= self.0@.len(),
                queue@ == self.0@.take(i as int),
            decreases self.0@.len() - i,
        {
            queue.push_back(self.0[i]);
            i = i + 1;
            assert(queue@ =~= self.0@.take(i as int));
        }
        assert(self.0@.take(i as int) =~= self.0@);
        let mut t = Burtle::default();
        t.instruction = queue;
        t
    }
}

} // verus!

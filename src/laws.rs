use vstd::prelude::*;
use crate::command::{BurtleCommand, Effect, Point, Segment, Waypoint};
use crate::model::{
    apply_front, drawn, frame, frames, is_motion, is_plain, rest_of, restore_target, run, skip_n, Offset, TurtleView,
};

verus! {

/// Turning left and then right by the same angle leaves the heading as it was.
pub proof fn lemma_turn_left_right(s: TurtleView, a: i64, rest: Seq<BurtleCommand>, offs: Seq<Offset>)
    requires
        s.queue == seq![BurtleCommand::TurnLeft(a), BurtleCommand::TurnRight(a)] + rest,
    ensures
        run(s, 2, offs).0 == (TurtleView { queue: rest, ..s }),
{
    let s1 = apply_front(s, offs[0]).state;
    assert(s.queue.drop_first() =~= seq![BurtleCommand::TurnRight(a)] + rest);
    assert(s1.queue.drop_first() =~= rest);
    assert(s1.heading.wrapping_sub(a) == s.heading);
    let s2 = apply_front(s1, rest_of(offs)[0]).state;
    assert(s2 == (TurtleView { queue: rest, ..s }));
    assert(run(s2, 0, rest_of(rest_of(offs))).0 == s2);
    assert(run(s1, 1, rest_of(offs)).0 == s2);
}

/// A move or a `GoTo` draws exactly one segment, from the old position to the
/// new one in the pen's colour and width, when the pen is down, and none when
/// it is up.
pub proof fn lemma_motion_segment(s: TurtleView, off: Offset)
    requires
        s.queue.len() > 0,
        is_motion(s.queue[0]),
    ensures
        apply_front(s, off).effects == (if s.pen_down {
            seq![
                Effect::Draw(
                    Segment {
                        from: s.position,
                        to: apply_front(s, off).state.position,
                        color: s.pen_color,
                        width: s.pen_size,
                    },
                ),
            ]
        } else {
            seq![]
        }),
        !apply_front(s, off).halt,
{
}

proof fn lemma_motions_pen_up(t: TurtleView, k: nat, offs: Seq<Offset>)
    requires
        !t.pen_down,
        forall|i: int| 0 <= i < t.queue.len() ==> is_motion(#[trigger] t.queue[i]),
    ensures
        run(t, k, offs).1.len() == 0,
    decreases k,
{
    if k > 0 && t.queue.len() > 0 {
        let o = apply_front(t, offs[0]);
        assert forall|i: int| 0 <= i < o.state.queue.len() implies is_motion(#[trigger] o.state.queue[i]) by {
            assert(o.state.queue[i] == t.queue[i + 1]);
        }
        lemma_motions_pen_up(o.state, (k - 1) as nat, rest_of(offs));
    }
}

/// After `PenUp`, any run of moves and `GoTo`s draws nothing.
pub proof fn lemma_pen_up_draws_nothing(s: TurtleView, ms: Seq<BurtleCommand>, k: nat, offs: Seq<Offset>)
    requires
        s.queue == seq![BurtleCommand::PenUp] + ms,
        forall|i: int| 0 <= i < ms.len() ==> is_motion(#[trigger] ms[i]),
    ensures
        run(s, k, offs).1.len() == 0,
{
    if k > 0 {
        let o = apply_front(s, offs[0]);
        assert(o.state.queue =~= ms);
        lemma_motions_pen_up(o.state, (k - 1) as nat, rest_of(offs));
    }
}

/// The segments of a run of effects that are all draws, each from where the
/// one before it ended.
pub open spec fn chained_draws(effs: Seq<Effect>, from: Point, to: Point, pen: TurtleView) -> bool {
    &&& forall|i: int| 0 <= i < effs.len() ==> (#[trigger] effs[i]) is Draw
    &&& forall|i: int|
        0 <= i < effs.len() ==> (#[trigger] effs[i])->Draw_0.color == pen.pen_color
            && effs[i]->Draw_0.width == pen.pen_size
    &&& forall|i: int| 0 <= i < effs.len() - 1 ==> (#[trigger] effs[i])->Draw_0.to == effs[i + 1]->Draw_0.from
    &&& effs.len() > 0 ==> effs[0]->Draw_0.from == from && effs.last()->Draw_0.to == to
    &&& effs.len() == 0 ==> from == to
}

proof fn lemma_motions_pen_down(t: TurtleView, k: nat, offs: Seq<Offset>)
    requires
        t.pen_down,
        k >= t.queue.len(),
        forall|i: int| 0 <= i < t.queue.len() ==> is_motion(#[trigger] t.queue[i]),
    ensures
        run(t, k, offs).1.len() == t.queue.len(),
        chained_draws(run(t, k, offs).1, t.position, run(t, k, offs).0.position, t),
    decreases k,
{
    if k > 0 && t.queue.len() > 0 {
        let o = apply_front(t, offs[0]);
        assert forall|i: int| 0 <= i < o.state.queue.len() implies is_motion(#[trigger] o.state.queue[i]) by {
            assert(o.state.queue[i] == t.queue[i + 1]);
        }
        lemma_motion_segment(t, offs[0]);
        lemma_motions_pen_down(o.state, (k - 1) as nat, rest_of(offs));
        let r = run(o.state, (k - 1) as nat, rest_of(offs));
        let e = o.effects + r.1;
        assert(run(t, k, offs) == (r.0, e));
        assert(e[0] == o.effects[0]);
        assert forall|i: int| 0 < i < e.len() implies #[trigger] e[i] == r.1[i - 1] by {}
        assert forall|i: int| 0 <= i < e.len() - 1 implies (#[trigger] e[i])->Draw_0.to == e[i + 1]->Draw_0.from by {
            if i > 0 {
                assert(e[i] == r.1[i - 1]);
                assert(e[i + 1] == r.1[i]);
            }
        }
        assert forall|i: int| 0 <= i < e.len() implies (#[trigger] e[i]) is Draw by {
            if i > 0 {
                assert(e[i] == r.1[i - 1]);
            }
        }
        assert forall|i: int| 0 <= i < e.len() implies (#[trigger] e[i])->Draw_0.color == t.pen_color
            && e[i]->Draw_0.width == t.pen_size by {
            if i > 0 {
                assert(e[i] == r.1[i - 1]);
            }
        }
        if r.1.len() > 0 {
            assert(e.last() == r.1.last());
        }
    }
}

/// After `PenDown`, each move or `GoTo` of a run of them draws exactly one
/// segment in the pen's colour and width, from the position before it to the
/// position after it: the segments join end to start, from where the turtle
/// was to where it stops.
pub proof fn lemma_pen_down_draws_each_motion(s: TurtleView, ms: Seq<BurtleCommand>, k: nat, offs: Seq<Offset>)
    requires
        s.queue == seq![BurtleCommand::PenDown] + ms,
        forall|i: int| 0 <= i < ms.len() ==> is_motion(#[trigger] ms[i]),
        k > ms.len(),
    ensures
        run(s, k, offs).1.len() == ms.len(),
        chained_draws(run(s, k, offs).1, s.position, run(s, k, offs).0.position, s),
{
    let o = apply_front(s, offs[0]);
    assert(o.state.queue =~= ms);
    lemma_motions_pen_down(o.state, (k - 1) as nat, rest_of(offs));
    let r = run(o.state, (k - 1) as nat, rest_of(offs));
    assert(seq![] + r.1 =~= r.1);
}

/// `SetHeading` sets the heading outright: the turtle's earlier heading has
/// no bearing on what follows.
pub proof fn lemma_set_heading_absolute(s: TurtleView, h: i64, rest: Seq<BurtleCommand>, off: Offset)
    requires
        s.queue == seq![BurtleCommand::SetHeading(h)] + rest,
    ensures
        apply_front(s, off).state == (TurtleView { heading: h, queue: rest, ..s }),
        !apply_front(s, off).halt,
{
    assert(s.queue.drop_first() =~= rest);
}

proof fn lemma_plain_prefix(
    t: TurtleView,
    ms: Seq<BurtleCommand>,
    tail: Seq<BurtleCommand>,
    k: nat,
    offs: Seq<Offset>,
) -> (t2: TurtleView)
    requires
        t.queue == ms + tail,
        forall|i: int| 0 <= i < ms.len() ==> is_plain(#[trigger] ms[i]),
    ensures
        t2.waypoints == t.waypoints,
        t2.queue == tail,
        run(t, ms.len() + k, offs).0 == run(t2, k, skip_n(offs, ms.len())).0,
    decreases ms.len(),
{
    if ms.len() == 0 {
        assert(ms + tail =~= tail);
        t
    } else {
        let o = apply_front(t, offs[0]);
        assert(is_plain(ms[0]));
        assert(t.queue[0] == ms[0]);
        assert((ms + tail).drop_first() =~= ms.drop_first() + tail);
        assert forall|i: int| 0 <= i < ms.drop_first().len() implies is_plain(#[trigger] ms.drop_first()[i]) by {
            assert(ms.drop_first()[i] == ms[i + 1]);
        }
        let t2 = lemma_plain_prefix(o.state, ms.drop_first(), tail, k, rest_of(offs));
        assert(ms.len() + k - 1 == ms.drop_first().len() + k);
        t2
    }
}

/// However the heading was reached by earlier turns and moves, a `SetHeading`
/// after them leaves exactly the heading it names.
pub proof fn lemma_turns_before_set_heading(
    s: TurtleView,
    ts: Seq<BurtleCommand>,
    h: i64,
    rest: Seq<BurtleCommand>,
    offs: Seq<Offset>,
)
    requires
        s.queue == ts + seq![BurtleCommand::SetHeading(h)] + rest,
        forall|i: int| 0 <= i < ts.len() ==> is_plain(#[trigger] ts[i]),
    ensures
        run(s, ts.len() + 1, offs).0.heading == h,
        run(s, ts.len() + 1, offs).0.queue == rest,
{
    assert(s.queue =~= ts + (seq![BurtleCommand::SetHeading(h)] + rest));
    let t2 = lemma_plain_prefix(s, ts, seq![BurtleCommand::SetHeading(h)] + rest, 1, offs);
    let x = skip_n(offs, ts.len());
    let o = apply_front(t2, x[0]);
    assert(t2.queue.drop_first() =~= rest);
    assert(!o.halt && o.state.heading == h && o.state.queue == rest);
    assert(run(o.state, 0, rest_of(x)).0 == o.state);
    assert(run(t2, 1, x).0 == o.state);
}

/// A `Wait(0)` is taken off the queue at once, within the same stepping call,
/// and changes nothing else.
pub proof fn lemma_wait_zero(s: TurtleView, rest: Seq<BurtleCommand>, k: nat, offs: Seq<Offset>)
    requires
        s.queue == seq![BurtleCommand::Wait(0)] + rest,
        k > 0,
    ensures
        run(s, k, offs) == run(TurtleView { queue: rest, ..s }, (k - 1) as nat, rest_of(offs)),
{
    assert(s.queue.drop_first() =~= rest);
    let r = run(TurtleView { queue: rest, ..s }, (k - 1) as nat, rest_of(offs));
    assert(seq![] + r.1 =~= r.1);
}

/// A `Wait(n)` at the front holds the queue for `n` stepping calls: each of
/// them only counts the wait down, and after the `n`-th a `Wait(0)` is still
/// in front of the commands queued behind it.
pub proof fn lemma_wait_delays(s: TurtleView, n: u32, rest: Seq<BurtleCommand>, offss: Seq<Seq<Offset>>)
    requires
        s.queue == seq![BurtleCommand::Wait(n)] + rest,
        offss.len() <= n,
    ensures
        frames(s, offss) == (
            TurtleView { queue: seq![BurtleCommand::Wait((n - offss.len()) as u32)] + rest, ..s },
            Seq::<Effect>::empty(),
        ),
    decreases offss.len(),
{
    if offss.len() == 0 {
        assert(n - offss.len() == n);
    } else {
        assert(s.queue.drop_first() =~= rest);
        let f = frame(s, offss[0]);
        let s1 = TurtleView { queue: seq![BurtleCommand::Wait((n - 1) as u32)] + rest, ..s };
        assert(f == (s1, Seq::<Effect>::empty()));
        lemma_wait_delays(s1, (n - 1) as u32, rest, offss.skip(1));
        assert(Seq::<Effect>::empty() + Seq::<Effect>::empty() =~= Seq::<Effect>::empty());
    }
}

/// Saving a waypoint, then any commands that do not wait or touch waypoints,
/// then restoring it, brings back the saved position and heading and leaves
/// the waypoint stack as it was.
pub proof fn lemma_waypoint_round_trip(s: TurtleView, ms: Seq<BurtleCommand>, offs: Seq<Offset>)
    requires
        s.queue == seq![BurtleCommand::AddWaypoint] + ms + seq![BurtleCommand::RestoreWaypoint],
        forall|i: int| 0 <= i < ms.len() ==> is_plain(#[trigger] ms[i]),
    ensures
        run(s, ms.len() + 4, offs).0.position == s.position,
        run(s, ms.len() + 4, offs).0.heading == s.heading,
        run(s, ms.len() + 4, offs).0.waypoints == s.waypoints,
        run(s, ms.len() + 4, offs).0.queue.len() == 0,
{
    let w = Waypoint { position: s.position, heading: s.heading };
    let o1 = apply_front(s, offs[0]);
    assert(o1.state.queue =~= ms + seq![BurtleCommand::RestoreWaypoint]);
    assert(o1.state.waypoints == s.waypoints.push(w));
    let t2 = lemma_plain_prefix(o1.state, ms, seq![BurtleCommand::RestoreWaypoint], 3, rest_of(offs));
    assert(ms.len() + 4 - 1 == ms.len() + 3);
    let offs2 = skip_n(rest_of(offs), ms.len());
    assert(s.waypoints.push(w).drop_last() =~= s.waypoints);
    assert(restore_target(t2.waypoints) == (w, s.waypoints));
    let o2 = apply_front(t2, offs2[0]);
    assert(o2.state.queue =~= seq![
        BurtleCommand::SetHeading(w.heading),
        BurtleCommand::GoTo(w.position.x, w.position.y),
    ]);
    let o3 = apply_front(o2.state, rest_of(offs2)[0]);
    assert(o3.state.queue =~= seq![BurtleCommand::GoTo(w.position.x, w.position.y)]);
    let o4 = apply_front(o3.state, rest_of(rest_of(offs2))[0]);
    assert(o4.state.queue =~= Seq::<BurtleCommand>::empty());
    assert(!o4.halt);
    assert(run(o4.state, 0, rest_of(rest_of(rest_of(offs2)))).0 == o4.state);
    assert(run(o3.state, 1, rest_of(rest_of(offs2))).0 == o4.state);
    assert(run(o2.state, 2, rest_of(offs2)).0 == o4.state);
    assert(run(t2, 3, offs2).0 == o4.state);
}

/// Restoring with no saved waypoint returns to the origin facing along the
/// positive X axis.
pub proof fn lemma_restore_without_waypoint(s: TurtleView, rest: Seq<BurtleCommand>, offs: Seq<Offset>)
    requires
        s.queue == seq![BurtleCommand::RestoreWaypoint] + rest,
        s.waypoints.len() == 0,
    ensures
        run(s, 3, offs).0 == (TurtleView { position: Point::spec_origin(), heading: 0, queue: rest, ..s }),
{
    let o1 = apply_front(s, offs[0]);
    assert(s.queue.drop_first() =~= rest);
    assert(o1.state.queue =~= seq![BurtleCommand::SetHeading(0), BurtleCommand::GoTo(0, 0)] + rest);
    let o2 = apply_front(o1.state, rest_of(offs)[0]);
    assert(o2.state.queue =~= seq![BurtleCommand::GoTo(0, 0)] + rest);
    let o3 = apply_front(o2.state, rest_of(rest_of(offs))[0]);
    assert(o3.state.queue =~= rest);
    assert(o3.state == (TurtleView { position: Point::spec_origin(), heading: 0, queue: rest, ..s }));
    assert(run(o3.state, 0, rest_of(rest_of(rest_of(offs)))).0 == o3.state);
    assert(run(o2.state, 1, rest_of(rest_of(offs))).0 == o3.state);
    assert(run(o1.state, 2, rest_of(offs)).0 == o3.state);
}

/// `Clear` empties the canvas, whatever it held, and changes no turtle state
/// but the queue.
pub proof fn lemma_clear_erases(s: TurtleView, rest: Seq<BurtleCommand>, off: Offset, before: Seq<Segment>)
    requires
        s.queue == seq![BurtleCommand::Clear] + rest,
    ensures
        apply_front(s, off).state == (TurtleView { queue: rest, ..s }),
        apply_front(s, off).effects == seq![Effect::ClearAll],
        drawn(before, apply_front(s, off).effects) == Seq::<Segment>::empty(),
{
    assert(s.queue.drop_first() =~= rest);
    let e = seq![Effect::ClearAll];
    assert(drawn(Seq::<Segment>::empty(), e.skip(1)) == Seq::<Segment>::empty());
}

} // verus!

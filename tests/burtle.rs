use burtle::command::{BurtleCommand, Effect, Point, Rgba, Segment, Waypoint};
use burtle::turtle::Burtle;

fn trig(heading: i64, distance: i64) -> (i64, i64) {
    let r = (heading as f64).to_radians();
    let d = distance as f64;
    ((r.cos() * d).round() as i64, (r.sin() * d).round() as i64)
}

fn draws(effects: &[Effect]) -> Vec<Segment> {
    let mut out = Vec::new();
    for e in effects {
        if let Effect::Draw(s) = e {
            out.push(*s);
        }
    }
    out
}

fn seg(from: (i64, i64), to: (i64, i64), color: Rgba, width: i64) -> Segment {
    Segment { from: Point::new(from.0, from.1), to: Point::new(to.0, to.1), color, width }
}

#[test]
fn fresh_turtle_defaults() {
    let t = Burtle::new();
    assert_eq!(t.position(), Point::new(0, 0));
    assert_eq!(t.heading(), 0);
    assert!(!t.is_pen_down());
    assert_eq!(t.pen_size(), 2);
    assert_eq!(t.pen_color(), Rgba::new(0, 0, 0, 255));
    assert!(t.waypoints().is_empty());
    assert!(t.is_idle());
    assert_eq!(t.pending(), vec![]);
}

#[test]
fn builders_append_in_order() {
    let mut t = Burtle::new();
    let red = Rgba::new(255, 0, 0, 255);
    t.right(30);
    t.left(45);
    t.forward(10);
    t.backward(4);
    t.pen_up();
    t.pen_down();
    t.set_pen_color(red);
    t.set_pen_size(5);
    t.set_size(12);
    t.goto(3, -7);
    t.set_heading(180);
    t.wait(3);
    t.clear();
    t.set_waypoint();
    t.goto_waypoint();
    assert_eq!(
        t.pending(),
        vec![
            BurtleCommand::TurnRight(30),
            BurtleCommand::TurnLeft(45),
            BurtleCommand::MoveForward(10),
            BurtleCommand::MoveBackward(4),
            BurtleCommand::PenUp,
            BurtleCommand::PenDown,
            BurtleCommand::SetPenColor(red),
            BurtleCommand::SetPenSize(5),
            BurtleCommand::SetSize(12),
            BurtleCommand::GoTo(3, -7),
            BurtleCommand::SetHeading(180),
            BurtleCommand::Wait(3),
            BurtleCommand::Clear,
            BurtleCommand::AddWaypoint,
            BurtleCommand::RestoreWaypoint,
        ]
    );
}

#[test]
fn reset_queues_home_then_clear() {
    let mut t = Burtle::new();
    t.forward(3);
    t.reset();
    assert_eq!(
        t.pending(),
        vec![BurtleCommand::MoveForward(3), BurtleCommand::GoTo(0, 0), BurtleCommand::Clear]
    );
}

#[test]
fn spawned_turtle_owns_a_copy_of_the_queue() {
    let mut b = Burtle::new();
    b.pen_down();
    b.forward(5);
    let instruction = b.into_instruction();
    let mut first = instruction.spawn();
    let second = instruction.spawn();
    first.left(90);
    assert_eq!(second.pending(), vec![BurtleCommand::PenDown, BurtleCommand::MoveForward(5)]);
    assert_eq!(first.pending().len(), 3);
    assert_eq!(second.position(), Point::new(0, 0));
    assert!(!second.is_pen_down());
}

#[test]
fn empty_queue_step_does_nothing() {
    let mut t = Burtle::new();
    let effects = t.step(&trig);
    assert!(effects.is_empty());
    assert_eq!(t.position(), Point::new(0, 0));
    assert_eq!(t.heading(), 0);
}

#[test]
fn square_corner_scenario() {
    let mut t = Burtle::new();
    t.pen_down();
    t.forward(10);
    t.left(90);
    t.forward(10);
    let effects = t.step(&trig);
    let black = Rgba::new(0, 0, 0, 255);
    assert_eq!(
        draws(&effects),
        vec![seg((0, 0), (-10, 0), black, 2), seg((-10, 0), (-10, -10), black, 2)]
    );
    assert_eq!(effects.len(), 2);
    assert_eq!(t.position(), Point::new(-10, -10));
    assert_eq!(t.heading(), 90);
    assert!(t.is_idle());
}

#[test]
fn colored_goto_scenario() {
    let mut t = Burtle::new();
    let red = Rgba::new(255, 0, 0, 255);
    t.set_pen_color(red);
    t.pen_down();
    t.goto(5, 5);
    let effects = t.step(&trig);
    assert_eq!(effects, vec![Effect::Draw(seg((0, 0), (5, 5), red, 2))]);
    assert_eq!(t.position(), Point::new(5, 5));
}

#[test]
fn wait_then_move_scenario() {
    let mut t = Burtle::new();
    t.wait(2);
    t.forward(1);
    assert!(t.step(&trig).is_empty());
    assert_eq!(t.position(), Point::new(0, 0));
    assert_eq!(t.pending(), vec![BurtleCommand::Wait(1), BurtleCommand::MoveForward(1)]);
    assert!(t.step(&trig).is_empty());
    assert_eq!(t.position(), Point::new(0, 0));
    assert_eq!(t.pending(), vec![BurtleCommand::Wait(0), BurtleCommand::MoveForward(1)]);
    assert!(t.step(&trig).is_empty());
    assert_eq!(t.position(), Point::new(-1, 0));
    assert!(t.is_idle());
}

#[test]
fn wait_zero_pops_within_the_same_step() {
    let mut t = Burtle::new();
    t.wait(0);
    t.set_heading(45);
    t.step(&trig);
    assert_eq!(t.heading(), 45);
    assert!(t.is_idle());
}

#[test]
fn pen_up_motion_draws_nothing() {
    let mut t = Burtle::new();
    t.pen_down();
    t.pen_up();
    t.forward(10);
    t.backward(3);
    t.goto(40, 50);
    let effects = t.step(&trig);
    assert!(effects.is_empty());
    assert_eq!(t.position(), Point::new(40, 50));
}

#[test]
fn pen_down_each_motion_draws_one_segment() {
    let mut t = Burtle::new();
    t.pen_down();
    t.set_pen_size(7);
    t.backward(4);
    t.goto(1, 1);
    t.set_heading(90);
    t.forward(3);
    let effects = t.step(&trig);
    let black = Rgba::new(0, 0, 0, 255);
    assert_eq!(
        draws(&effects),
        vec![
            seg((0, 0), (-4, 0), black, 7),
            seg((-4, 0), (1, 1), black, 7),
            seg((1, 1), (1, -2), black, 7),
        ]
    );
}

#[test]
fn turn_left_then_right_restores_heading() {
    let mut t = Burtle::new();
    t.set_heading(17);
    t.left(400);
    t.right(400);
    t.step(&trig);
    assert_eq!(t.heading(), 17);
    t.left(i64::MAX);
    t.right(i64::MAX);
    t.step(&trig);
    assert_eq!(t.heading(), 17);
}

#[test]
fn turns_accumulate_without_normalising() {
    let mut t = Burtle::new();
    t.left(300);
    t.left(300);
    t.right(45);
    t.step(&trig);
    assert_eq!(t.heading(), 555);
}

#[test]
fn set_heading_ignores_earlier_turns() {
    let mut t = Burtle::new();
    t.left(35);
    t.right(120);
    t.left(7);
    t.set_heading(60);
    t.step(&trig);
    assert_eq!(t.heading(), 60);
}

#[test]
fn waypoint_round_trip_restores_position_and_heading() {
    let mut t = Burtle::new();
    t.goto(3, 4);
    t.set_heading(30);
    t.set_waypoint();
    t.left(50);
    t.forward(20);
    t.goto(-8, 9);
    t.goto_waypoint();
    t.step(&trig);
    // the restoring SetHeading and GoTo are queued for the next step
    assert_eq!(t.pending(), vec![BurtleCommand::SetHeading(30), BurtleCommand::GoTo(3, 4)]);
    assert_eq!(t.waypoints().len(), 0);
    t.step(&trig);
    assert_eq!(t.position(), Point::new(3, 4));
    assert_eq!(t.heading(), 30);
    assert!(t.is_idle());
}

#[test]
fn waypoints_nest_last_in_first_out() {
    let mut t = Burtle::new();
    t.goto(1, 1);
    t.set_waypoint();
    t.goto(2, 2);
    t.set_heading(10);
    t.set_waypoint();
    t.step(&trig);
    assert_eq!(
        t.waypoints().clone(),
        vec![
            Waypoint { position: Point::new(1, 1), heading: 0 },
            Waypoint { position: Point::new(2, 2), heading: 10 },
        ]
    );
    t.goto_waypoint();
    t.step(&trig);
    t.step(&trig);
    assert_eq!(t.position(), Point::new(2, 2));
    assert_eq!(t.heading(), 10);
}

#[test]
fn restore_without_waypoint_returns_to_origin() {
    let mut t = Burtle::new();
    t.goto(12, -3);
    t.set_heading(77);
    t.goto_waypoint();
    t.step(&trig);
    t.step(&trig);
    assert_eq!(t.position(), Point::new(0, 0));
    assert_eq!(t.heading(), 0);
}

#[test]
fn restore_draws_the_way_back_with_pen_down() {
    let mut t = Burtle::new();
    t.set_waypoint();
    t.pen_down();
    t.goto(6, 0);
    t.goto_waypoint();
    let first = t.step(&trig);
    let second = t.step(&trig);
    let black = Rgba::new(0, 0, 0, 255);
    assert_eq!(draws(&first), vec![seg((0, 0), (6, 0), black, 2)]);
    assert_eq!(draws(&second), vec![seg((6, 0), (0, 0), black, 2)]);
}

#[test]
fn clear_keeps_turtle_state() {
    let mut t = Burtle::new();
    let blue = Rgba::new(0, 0, 255, 255);
    t.pen_down();
    t.set_pen_color(blue);
    t.goto(2, 3);
    t.set_heading(15);
    t.step(&trig);
    t.clear();
    let effects = t.step(&trig);
    assert_eq!(effects, vec![Effect::ClearAll]);
    assert_eq!(t.position(), Point::new(2, 3));
    assert_eq!(t.heading(), 15);
    assert!(t.is_pen_down());
    assert_eq!(t.pen_color(), blue);
}

#[test]
fn effects_keep_their_order() {
    let mut t = Burtle::new();
    t.pen_down();
    t.goto(1, 0);
    t.clear();
    t.set_size(20);
    t.goto(1, 2);
    let effects = t.step(&trig);
    let black = Rgba::new(0, 0, 0, 255);
    assert_eq!(
        effects,
        vec![
            Effect::Draw(seg((0, 0), (1, 0), black, 2)),
            Effect::ClearAll,
            Effect::Resize(20),
            Effect::Draw(seg((1, 0), (1, 2), black, 2)),
        ]
    );
}

#[test]
fn step_budget_is_the_queue_length_at_start() {
    let mut t = Burtle::new();
    t.goto_waypoint();
    t.step(&trig);
    assert_eq!(t.pending(), vec![BurtleCommand::SetHeading(0), BurtleCommand::GoTo(0, 0)]);
}

#[test]
fn wait_stops_the_rest_of_the_step() {
    let mut t = Burtle::new();
    t.set_heading(90);
    t.wait(1);
    t.set_heading(10);
    t.step(&trig);
    assert_eq!(t.heading(), 90);
    assert_eq!(t.pending(), vec![BurtleCommand::Wait(0), BurtleCommand::SetHeading(10)]);
    t.step(&trig);
    assert_eq!(t.heading(), 10);
}

#[test]
fn position_wraps_instead_of_failing() {
    let mut t = Burtle::new();
    t.goto(i64::MIN, 0);
    t.forward(1);
    t.step(&|_h: i64, d: i64| (d, 0));
    assert_eq!(t.position(), Point::new(i64::MAX, 0));
}

use vstd::prelude::*;

verus! {

/// A stroke colour, one byte per channel.
#[derive(Clone, Copy, Debug, PartialEq, Eq, Structural)]
pub struct Rgba {
    pub r: u8,
    pub g: u8,
    pub b: u8,
    pub a: u8,
}

impl Rgba {
    pub fn new(r: u8, g: u8, b: u8, a: u8) -> (c: Rgba)
        ensures
            c == (Rgba { r, g, b, a }),
    {
        Rgba { r, g, b, a }
    }

    pub open spec fn spec_black() -> Rgba {
        Rgba { r: 0, g: 0, b: 0, a: 255 }
    }

    /// Opaque black, the pen's initial colour.
    pub fn black() -> (c: Rgba)
        ensures
            c == Rgba::spec_black(),
    {
        Rgba { r: 0, g: 0, b: 0, a: 255 }
    }
}

/// A point of the canvas.
#[derive(Clone, Copy, Debug, PartialEq, Eq, Structural)]
pub struct Point {
    pub x: i64,
    pub y: i64,
}

impl Point {
    pub open spec fn spec_origin() -> Point {
        Point { x: 0, y: 0 }
    }

    pub fn new(x: i64, y: i64) -> (p: Point)
        ensures
            p == (Point { x, y }),
    {
        Point { x, y }
    }
}

/// One pending turtle operation.
#[derive(Clone, Copy, Debug, PartialEq, Eq, Structural)]
pub enum BurtleCommand {
    PenUp,
    PenDown,
    /// Add the angle to the heading.
    TurnLeft(i64),
    /// Subtract the angle from the heading.
    TurnRight(i64),
    MoveForward(i64),
    MoveBackward(i64),
    SetPenColor(Rgba),
    SetPenSize(i64),
    /// Scale of the turtle's own glyph; no effect on motion.
    SetSize(i64),
    GoTo(i64, i64),
    SetHeading(i64),
    /// Hold the queue for this many further stepping calls.
    Wait(u32),
    Clear,
    AddWaypoint,
    RestoreWaypoint,
}

/// A line drawn by the turtle while its pen was down.
#[derive(Clone, Copy, Debug, PartialEq, Eq, Structural)]
pub struct Segment {
    pub from: Point,
    pub to: Point,
    pub color: Rgba,
    pub width: i64,
}

/// What a stepping call asks of the canvas, in order.
#[derive(Clone, Copy, Debug, PartialEq, Eq, Structural)]
pub enum Effect {
    /// Add a segment, kept until the next `ClearAll`.
    Draw(Segment),
    /// Remove every segment drawn so far.
    ClearAll,
    /// Show the turtle's glyph at this size.
    Resize(i64),
}

/// A saved position and heading.
#[derive(Clone, Copy, Debug, PartialEq, Eq, Structural)]
pub struct Waypoint {
    pub position: Point,
    pub heading: i64,
}

} // verus!

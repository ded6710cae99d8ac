//! Turtle graphics: a queue of pen, heading and motion commands, replayed a
//! frame at a time against a canvas to produce line segments.
//!
//! Coordinates, distances, angles and pen widths are integers. Angles are in
//! degrees, with 0 facing along the positive X axis. The trigonometry of a move
//! is left to the host: each stepping call takes a function from a heading and
//! a distance to the displacement that the move subtracts from the position.
//!
//! No command fails. Headings are not normalised, and heading and coordinate
//! arithmetic wraps on overflow rather than stopping the turtle.
pub mod command;
pub mod model;
pub mod turtle;
pub mod laws;

//! Coordinate model and drag-interaction state machine for an interactive
//! 2D plot view.
//!
//! A plot window maps a fixed pixel viewport onto a movable, scalable window
//! of data values, one axis per screen dimension.  This crate holds the part
//! of that picture with real invariants: the interval arithmetic that turns
//! pixels into fractions and fractions into data values, the per-axis
//! view state with its re-anchoring `set` operation, and the press/drag/
//! release gesture handling that pans the view.  Windowing and rendering are
//! external collaborators that feed pointer positions in and read the
//! visible bounds out.
//!
//! Coordinates are exact rationals ([`rat::Rat`]): every contract here states
//! the exact value an operation produces, over a mathematical model of
//! unbounded rationals ([`rat::RatM`]).
#![allow(non_snake_case)]

pub mod axis;
pub mod laws;
pub mod rat;

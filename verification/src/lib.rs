//! The core of a sleep timer: a calendar clock that turns seconds since the
//! Unix epoch into dates and times without a calendar library, and a session
//! controller that starts, stops and resumes one sleep session.
//!
//! The window, the drawing and the input are left to the program that uses
//! this library. It hands clicks and clock readings in, and gets the state
//! and the texts to show back.

pub mod calendar;
pub mod clock;
pub mod layout;
pub mod session;
pub mod text;
pub mod timestamp;
pub mod visual;

//! Decision and display logic of a soil-moisture irrigation controller.
//!
//! Each control cycle takes one temperature/humidity sensor outcome and one
//! raw moisture sample, decides whether the pump runs, and rebuilds the five
//! text lines of the status display.

pub mod text;
pub mod policy;
pub mod frame;

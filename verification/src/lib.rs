//! Grabbing, filtering and listening to keyboard and mouse events.
//!
//! The modules hold what is decided; whoever uses them opens the devices, talks to the X
//! server and sets the hooks. Each loop is a function that takes what came of the last action
//! and gives the next.

mod clock;
pub mod linux;
pub mod rdev;
pub mod windows;

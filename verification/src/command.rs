//! Command handlers: the plain history listing, starting a timer, and a
//! timer daemon whose status reply counts the seconds remaining.

pub mod history;
pub mod new;
pub mod start;

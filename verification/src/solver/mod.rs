//! Decisions on what a view shows.

pub mod projection;

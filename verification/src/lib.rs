//! A small library around two pieces: a capability-dispatch holder
//! (`minion`), which pairs a task label with a payload implementing a
//! one-method behaviour contract and delegates execution to it, and a
//! rectangular placement grid (`grid`) rendered as a console table.

pub mod grid;
pub mod minion;

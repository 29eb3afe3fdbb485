//! Interaction and lifecycle engine of a code-breaking board game.
//!
//! The crate tracks pointer input and converts it into discrete click pulses,
//! hit-tests clicks against circular interaction regions, carries a held
//! palette color onto the active board row, submits completed rows to an
//! external rule engine, lays out feedback markers, keeps named snapshots of
//! scene entities, and drives a stack-based application-mode state machine.

pub mod adapter;
pub mod color;
pub mod engine;
pub mod geometry;
pub mod loading;
pub mod menu;
pub mod modes;
pub mod picking;
pub mod random;
pub mod selector;
pub mod session;
pub mod snapshots;
pub mod structure;
pub mod turn;

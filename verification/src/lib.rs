//! The rules of a small tower-defence game: which target a tower aims at,
//! when it fires, what a build click turns a selected pad into, and when the
//! build menu is shown.
//!
//! The game runs in an engine that owns the world. Each tick the engine
//! hands the rules what they read (places, selections, button states, the
//! time since the last tick), and the rules answer with a queue of requests
//! that the engine carries out. Places are in thousandths of a world unit
//! and times in nanoseconds, so that the rules are exact.
//!
//! Three types of the engine pass through the rules as they are: its
//! `Timer`, on which a tower counts down to its next shot, and its `Entity`
//! and `HandleUntyped`, which are only handed on.

pub mod assets;
pub mod bullet;
pub mod commands;
pub mod math;
pub mod shooter;
pub mod timer;
pub mod tower;
pub mod tower_type;
pub mod ui;

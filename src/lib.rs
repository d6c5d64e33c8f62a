//! Authoritative state of a two-player Pong match: the court model, the
//! physics step, the reactions to player input and the decisions of the
//! simulation driver. Transport, templating and scheduling live outside.

pub mod model;
pub mod signal;
pub mod physics;
pub mod control;
pub mod driver;

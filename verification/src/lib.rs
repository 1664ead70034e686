//! The tab core of a terminal multiplexer: independent views share one
//! terminal screen, each drawing into its own rectangle, and a host routes
//! user actions to the focused one.

pub mod actions;
pub mod host;
pub mod tab;
pub mod terminal;

pub use actions::Action;

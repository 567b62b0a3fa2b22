//! Idle shutdown for a game server: watch the number of connected players and,
//! once nobody has been seen for longer than a configured time, stop the machine.
//!
//! The crate holds the decisions and leaves every effect to its caller. A
//! [`poller::Poller`] is a state machine: the caller performs the
//! [`poller::Action`] it was handed (wait for the next tick, query the server,
//! run the shutdown command, leave), reports what happened as an
//! [`poller::Event`], and receives the next action.
//!
//! All times are readings of one monotonic clock, in nanoseconds.
//!
//! - [`settings`] reads the startup settings from text, [`config`] holds them
//!   checked;
//! - [`tracker`] keeps the idle clock;
//! - [`backend`] and [`oci`] say which command stops the machine and judge
//!   what the command came to;
//! - [`poller`] is the loop, one event at a time, and [`runs`] states what
//!   holds of every run of it.

pub mod backend;
pub mod command;
pub mod config;
pub mod decimal;
pub mod oci;
pub mod poller;
pub mod runs;
pub mod settings;
pub mod tracker;

//! A simulation of a population of independent "universe" actors that age on
//! their own clocks, form pairwise relationships at birth, and exchange
//! combat/healing messages until they collapse.
//!
//! This crate holds the verified core: the per-universe state machine, the
//! supervisor's registry and routing decisions, the log-message builders and
//! the log retention ring. Event loops, channels and the HTTP front end live
//! outside the library and drive it through these functions.

pub mod ids;
pub mod relationship;
pub mod error;
pub mod rng;
pub mod color;
pub mod numfmt;
pub mod logging;
pub mod log_messages;
pub mod universe_event;
pub mod universe_command;
pub mod intent;
pub mod universe;
pub mod supervisor;
pub mod user_supervisor;
pub mod laws;

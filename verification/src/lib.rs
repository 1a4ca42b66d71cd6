//! A bridge between a Lyrion (Logitech) media server and the MPRIS interface
//! of the desktop, for a squeezelite player that runs without a screen.
//!
//! This crate holds the logic of the bridge and performs no I/O:
//!
//! - [`discover`] reads the reply to the discovery broadcast and steers the
//!   discovery of the server;
//! - [`lms`] builds the requests to the server and reads its responses;
//! - [`waiter`] steers the wait for the player to be known to the server;
//! - [`bridge`] detects the changes of the playback mode;
//! - [`launch`] works out the command that starts the player;
//! - [`mpris`] works out what the desktop is shown;
//! - [`supervisor`] steers the whole, from the discovery to the end.
//!
//! The modules that steer are state machines: the caller performs what they
//! ask for and reports what happened.

pub mod bridge;
pub mod discover;
pub mod launch;
pub mod lms;
pub mod mpris;
pub mod supervisor;
pub mod text;
pub mod waiter;

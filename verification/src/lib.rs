//! Presence coordination for an automated participant in voice channels.
//!
//! For each session (one per guild) the coordinator decides, from membership
//! changes, whether the automated participant leaves, stays or joins, and it
//! keeps at most one cancellable delayed action registered per session.
//!
//! Nothing here waits, sleeps or talks to the network. The functions take the
//! answers of the collaborators as plain values and say what is to be done
//! next; the program around the library performs it.

pub mod auto_join;
pub mod collaborators;
pub mod commands;
pub mod disconnect;
pub mod evaluator;
pub mod registry;
pub mod router;
pub mod scheduler;
pub mod snapshot;
pub mod timeline;

//! A real-time vehicle-position hub: the session registry, the seat
//! reservation ledger, the per-connection session state machine and the
//! visibility rule that decides which vehicles a client is told about.
//!
//! Everything here works on plain values. Coordinates are whole microdegrees,
//! distances and radii are whole millimetres, session identifiers are the
//! 128-bit value of a UUID, and timestamps are handed in by the caller.

pub mod client;
pub mod config;
pub mod database;
pub mod fanout;
pub mod feed;
pub mod geometry;
pub mod gtfs;
pub mod lobby;
pub mod messages;
pub mod protocol;
pub mod random;
pub mod route;
pub mod state;
pub mod util;
pub mod ws;

//! The storage layer of a lyrics manager's music library.
//!
//! The library decides what is sent to the SQLite database and what is made
//! of what comes back; the caller owns the connection and runs the
//! statements.
//!
//! - [`sql`]: bound values and statements.
//! - [`entities`]: the records of the library (tracks, albums, artists,
//!   configuration) and the rows they are read from.
//! - [`schema`]: the schema versions and the upgrade plan.
//! - [`queries`]: one statement builder per read or write of the library.
//! - [`import`]: adding scanned tracks, artist and album lookups included.
//! - [`pattern`]: the instrumental marker in synced lyrics.

pub mod sql;
pub mod entities;
pub mod schema;
pub mod pattern;
pub mod queries;
pub mod import;

//! The records of the catalogue: artists, albums, songs, users, history
//! entries and playlists, as the database stores them (`backend`) and as
//! pages show them (`frontend`).
//!
//! Dates are held as plain integers: a calendar date is its day number
//! counted from the start of the common era (January 1 of year 1 is day 1),
//! and a point in time is its count of microseconds since the Unix epoch.

pub mod backend;
pub mod frontend;

pub use backend::{Album, Artist, HistoryEntry, Playlist, Song, User};

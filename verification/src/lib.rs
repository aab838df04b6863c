//! Core logic of a music streaming service: how songs, albums and artists
//! are presented, how the player's queue and history move, how likes and
//! dislikes combine, how the rows of a catalogue query become song and album
//! lists, what sign-up and log-in requests are answered, how page addresses
//! are read, and what the forms for adding music submit.

pub mod text;
pub mod models;
pub mod dashboard_tile;
pub mod artistdata;
pub mod albumdata;
pub mod durations;
pub mod media_type;
pub mod song_lists;
pub mod ranking;
pub mod album_lists;
pub mod play_status;
pub mod auth;
pub mod catalogue;
pub mod upload;
pub mod menu;
pub mod pages;
pub mod profile;
pub mod playlists;
pub mod records;
pub mod scrolling;
pub mod links;

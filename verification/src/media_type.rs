//! The kinds of media that a result or a tile can be.

use vstd::prelude::*;

verus! {

/// Differentiates between different types of media.
/// Used to display a short text near an image or a title to tell what kind
/// of media it is.
#[derive(Clone, Copy, Debug, PartialEq, Eq, Structural)]
pub enum MediaType {
    Song,
    Album,
    Artist,
}

/// The label of a kind of media: its name.
pub open spec fn media_type_label(m: MediaType) -> Seq<char> {
    match m {
        MediaType::Song => "Song"@,
        MediaType::Album => "Album"@,
        MediaType::Artist => "Artist"@,
    }
}

impl MediaType {
    /// The label of this kind of media: "Song", "Album" or "Artist".
    pub fn to_string(&self) -> (s: String)
        ensures
            s@ == media_type_label(*self),
    {
        match self {
            MediaType::Song => String::from_str("Song"),
            MediaType::Album => String::from_str("Album"),
            MediaType::Artist => String::from_str("Artist"),
        }
    }
}

} // verus!

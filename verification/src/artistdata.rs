//! The data of an artist shown on a dashboard tile.

use vstd::prelude::*;
use crate::text::{decimal, int_to_string};

verus! {

/// Holds information about an artist, for the front-end.
#[derive(Clone, Debug)]
pub struct ArtistData {
    /// Artist id.
    pub id: i32,
    /// Artist name.
    pub name: String,
    /// Path to the artist image, relative to the root of the web server.
    pub image_path: String,
}

impl ArtistData {
    /// The tile's image: the artist's image.
    pub fn image_path(&self) -> (s: String)
        ensures
            s@ == self.image_path@,
    {
        self.image_path.clone()
    }

    /// The tile's title: the artist's name.
    pub fn title(&self) -> (s: String)
        ensures
            s@ == self.name@,
    {
        self.name.clone()
    }

    /// The tile's link: the artist's page, `/artist/{id}`.
    pub fn link(&self) -> (s: String)
        ensures
            s@ == "/artist/"@ + decimal(self.id as int),
    {
        let mut s = String::from_str("/artist/");
        let id = int_to_string(self.id as i64);
        s.append(id.as_str());
        s
    }

    /// The tile's description: "Artist".
    pub fn description(&self) -> (s: Option<String>)
        ensures
            s is Some,
            s->0@ == "Artist"@,
    {
        Some(String::from_str("Artist"))
    }
}

} // verus!

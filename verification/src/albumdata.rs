//! The data of an album shown on a dashboard tile.

use vstd::prelude::*;
use crate::models::Artist;
use crate::models::backend::{artist_names, display_names};
use crate::text::{decimal, int_to_string};

verus! {

/// Holds information about an album, for the front-end.
#[derive(Clone, Debug)]
pub struct AlbumData {
    /// Album id.
    pub id: i32,
    /// Album title.
    pub title: String,
    /// Album artists.
    pub artists: Vec<Artist>,
    /// Album release date, as a day number from the start of the common era.
    pub release_date: Option<i32>,
    /// Path to the album image, relative to the root of the web server.
    pub image_path: String,
}

impl AlbumData {
    /// The tile's image: the album's image.
    pub fn image_path(&self) -> (s: String)
        ensures
            s@ == self.image_path@,
    {
        self.image_path.clone()
    }

    /// The tile's title: the album's title.
    pub fn title(&self) -> (s: String)
        ensures
            s@ == self.title@,
    {
        self.title.clone()
    }

    /// The tile's link: the album's page, `/album/{id}`.
    pub fn link(&self) -> (s: String)
        ensures
            s@ == "/album/"@ + decimal(self.id as int),
    {
        let mut s = String::from_str("/album/");
        let id = int_to_string(self.id as i64);
        s.append(id.as_str());
        s
    }

    /// The tile's description: "Album • " and the album's artists.
    pub fn description(&self) -> (s: Option<String>)
        ensures
            s is Some,
            s->0@ == "Album • "@ + display_names(artist_names(self.artists@)),
    {
        let mut s = String::from_str("Album • ");
        let artists = Artist::display_list(self.artists.as_slice());
        s.append(artists.as_str());
        Some(s)
    }
}

} // verus!

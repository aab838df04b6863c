//! The catalogue records as pages show them.

use vstd::prelude::*;
use crate::models::backend;
use crate::dashboard_tile::{DashboardTile, DashboardTileView};
use crate::text::{decimal, int_to_string};
use crate::models::backend::{artist_names, display_names};

verus! {

/// An album as pages show it.
#[derive(Clone, Debug)]
pub struct Album {
    /// Album id.
    pub id: i32,
    /// Album title.
    pub title: String,
    /// Album artists.
    pub artists: Vec<backend::Artist>,
    /// Album release date, as a day number from the start of the common era.
    pub release_date: Option<i32>,
    /// Path to the album image, relative to the root of the web server.
    pub image_path: String,
}

/// An artist as pages show it.
#[derive(Clone, Debug)]
pub struct Artist {
    /// Artist id.
    pub id: i32,
    /// Artist name.
    pub name: String,
    /// Path to the artist image, relative to the root of the web server.
    pub image_path: String,
}

/// A song as pages show it.
#[derive(Clone, Debug)]
pub struct Song {
    /// Song id.
    pub id: i32,
    /// Song title.
    pub title: String,
    /// Song artists.
    pub artists: Vec<backend::Artist>,
    /// The album the song is from.
    pub album: Option<backend::Album>,
    /// The track number of the song on its album.
    pub track: Option<i32>,
    /// The duration of the song in seconds.
    pub duration: i32,
    /// The release date, as a day number from the start of the common era.
    pub release_date: Option<i32>,
    /// Path to the song's audio file.
    pub song_path: String,
    /// Path to the song's image, relative to the root of the web server.
    pub image_path: String,
    /// Whether the viewing user likes and dislikes the song, when known.
    pub like_dislike: Option<(bool, bool)>,
    /// When the song was added, in microseconds since the Unix epoch.
    pub added_date: i64,
}

/// The tile of an artist: its image, its name, a link to its page and the
/// description "Artist".
pub open spec fn artist_tile(a: Artist) -> DashboardTileView {
    DashboardTileView {
        image_path: a.image_path@,
        title: a.name@,
        link: "/artist/"@ + decimal(a.id as int),
        description: Some("Artist"@),
    }
}

/// The tile of an album: its image, its title, a link to its page and the
/// description "Album • " followed by its artists.
pub open spec fn album_tile(a: Album) -> DashboardTileView {
    DashboardTileView {
        image_path: a.image_path@,
        title: a.title@,
        link: "/album/"@ + decimal(a.id as int),
        description: Some("Album • "@ + display_names(artist_names(a.artists@))),
    }
}

impl DashboardTile {
    /// The dashboard tile of an artist.
    pub fn from_artist(val: Artist) -> (t: DashboardTile)
        ensures
            t@ == artist_tile(val),
    {
        let mut link = String::from_str("/artist/");
        let id = int_to_string(val.id as i64);
        link.append(id.as_str());
        DashboardTile {
            image_path: val.image_path,
            title: val.name,
            link,
            description: Some(String::from_str("Artist")),
        }
    }

    /// The dashboard tile of an album.
    pub fn from_album(val: Album) -> (t: DashboardTile)
        ensures
            t@ == album_tile(val),
    {
        let mut link = String::from_str("/album/");
        let id = int_to_string(val.id as i64);
        link.append(id.as_str());
        let mut description = String::from_str("Album • ");
        let artists = backend::Artist::display_list(val.artists.as_slice());
        description.append(artists.as_str());
        DashboardTile {
            image_path: val.image_path,
            title: val.title,
            link,
            description: Some(description),
        }
    }
}

impl From<Artist> for DashboardTile {
    /// The dashboard tile of an artist, as `from_artist` makes it.
    fn from(val: Artist) -> (t: DashboardTile)
        ensures
            t@ == artist_tile(val),
    {
        DashboardTile::from_artist(val)
    }
}

/// The tile's strings are made afresh, so no spec-level value is named for
/// the result; `from` states the tile's text in its own `ensures`.
impl vstd::std_specs::convert::FromSpecImpl<Artist> for DashboardTile {
    open spec fn obeys_from_spec() -> bool {
        false
    }

    open spec fn from_spec(v: Artist) -> DashboardTile {
        arbitrary()
    }
}

impl From<Album> for DashboardTile {
    /// The dashboard tile of an album, as `from_album` makes it.
    fn from(val: Album) -> (t: DashboardTile)
        ensures
            t@ == album_tile(val),
    {
        DashboardTile::from_album(val)
    }
}

/// The tile's strings are made afresh, so no spec-level value is named for
/// the result; `from` states the tile's text in its own `ensures`.
impl vstd::std_specs::convert::FromSpecImpl<Album> for DashboardTile {
    open spec fn obeys_from_spec() -> bool {
        false
    }

    open spec fn from_spec(v: Album) -> DashboardTile {
        arbitrary()
    }
}

} // verus!

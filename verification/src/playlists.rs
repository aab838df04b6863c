//! Playlists: creating one, the ids its requests need, the artists line of
//! its songs, and its song list after a song is removed.

use vstd::prelude::*;
use crate::models::backend::{Artist, Playlist, Song, artist_names};

verus! {

/// What a playlist request does with its songs.
#[derive(Clone, Copy, Debug, PartialEq, Eq, Structural)]
pub enum PlaylistAction {
    /// Adds a song to the playlist.
    AddSong,
    /// Lists the playlist's songs.
    GetSongs,
    /// Removes a song from the playlist.
    RemoveSong,
}

/// Why a playlist request was refused.
#[derive(Clone, Copy, Debug, PartialEq, Eq, Structural)]
pub enum PlaylistError {
    /// The request gave no playlist id.
    MissingPlaylistId(PlaylistAction),
    /// The request gave no song id.
    MissingSongId(PlaylistAction),
}

/// The words that end each refusal: what the id was needed for.
pub open spec fn action_text(a: PlaylistAction) -> Seq<char> {
    match a {
        PlaylistAction::AddSong => "to add song"@,
        PlaylistAction::GetSongs => "to get songs"@,
        PlaylistAction::RemoveSong => "to remove song"@,
    }
}

/// The message of each refusal.
pub open spec fn playlist_error_text(e: PlaylistError) -> Seq<char> {
    match e {
        PlaylistError::MissingPlaylistId(a) => "Playlist id must be present (Some) "@ + action_text(a),
        PlaylistError::MissingSongId(a) => "Song id must be present (Some) "@ + action_text(a),
    }
}

fn action_str(a: PlaylistAction) -> (s: &'static str)
    ensures
        s@ == action_text(a),
{
    match a {
        PlaylistAction::AddSong => "to add song",
        PlaylistAction::GetSongs => "to get songs",
        PlaylistAction::RemoveSong => "to remove song",
    }
}

impl PlaylistError {
    /// The message sent back to the client.
    pub fn message(&self) -> (s: String)
        ensures
            s@ == playlist_error_text(*self),
    {
        match self {
            PlaylistError::MissingPlaylistId(a) => {
                let mut s = String::from_str("Playlist id must be present (Some) ");
                s.append(action_str(*a));
                s
            },
            PlaylistError::MissingSongId(a) => {
                let mut s = String::from_str("Song id must be present (Some) ");
                s.append(action_str(*a));
                s
            },
        }
    }
}

/// The playlist and song ids of a request that adds or removes a song: the
/// playlist id is checked first.
pub fn playlist_song_ids(action: PlaylistAction, playlist_id: Option<i32>, song_id: Option<i32>) -> (r:
    Result<(i32, i32), PlaylistError>)
    ensures
        playlist_id is None ==> r == Err::<(i32, i32), PlaylistError>(
            PlaylistError::MissingPlaylistId(action),
        ),
        playlist_id is Some && song_id is None ==> r == Err::<(i32, i32), PlaylistError>(
            PlaylistError::MissingSongId(action),
        ),
        playlist_id is Some && song_id is Some ==> r == Ok::<(i32, i32), PlaylistError>(
            (playlist_id->0, song_id->0),
        ),
{
    let p = match playlist_id {
        Some(p) => p,
        None => {
            return Err(PlaylistError::MissingPlaylistId(action));
        },
    };
    match song_id {
        Some(s) => Ok((p, s)),
        None => Err(PlaylistError::MissingSongId(action)),
    }
}

/// The playlist id of a request that lists a playlist's songs.
pub fn playlist_id_for_songs(playlist_id: Option<i32>) -> (r: Result<i32, PlaylistError>)
    ensures
        playlist_id is None ==> r == Err::<i32, PlaylistError>(
            PlaylistError::MissingPlaylistId(PlaylistAction::GetSongs),
        ),
        playlist_id is Some ==> r == Ok::<i32, PlaylistError>(playlist_id->0),
{
    match playlist_id {
        Some(p) => Ok(p),
        None => Err(PlaylistError::MissingPlaylistId(PlaylistAction::GetSongs)),
    }
}

/// A new playlist of the given owner: not stored yet, so without an id or
/// timestamps.
pub fn new_playlist(name: String, owner_id: i32) -> (p: Playlist)
    ensures
        p.id is None,
        p.created_at is None,
        p.updated_at is None,
        p.owner_id == owner_id,
        p.name@ == name@,
{
    Playlist { id: None, created_at: None, updated_at: None, owner_id, name }
}

/// The names joined with `sep` between each two.
pub open spec fn joined(names: Seq<Seq<char>>, sep: Seq<char>) -> Seq<char>
    decreases names.len(),
{
    if names.len() == 0 {
        Seq::empty()
    } else if names.len() == 1 {
        names[0]
    } else {
        joined(names.drop_last(), sep) + sep + names.last()
    }
}

/// The artists line of a song in a playlist: the names joined by " & ".
pub fn artists_line(artists: &[Artist]) -> (s: String)
    ensures
        s@ == joined(artist_names(artists@), " & "@),
{
    let mut s = String::new();
    let n = artists.len();
    let mut i: usize = 0;
    while i < n
        invariant
            n == artists@.len(),
            0 <= i <= n,
            s@ == joined(artist_names(artists@.subrange(0, i as int)), " & "@),
        decreases n - i,
    {
        proof {
            let names = artist_names(artists@.subrange(0, i as int + 1));
            assert(names.drop_last() =~= artist_names(artists@.subrange(0, i as int)));
            assert(names.last() == artists@[i as int].name@);
            assert(i == 0 ==> names =~= seq![artists@[i as int].name@]);
        }
        if i > 0 {
            s.append(" & ");
        }
        s.append(artists[i].name.as_str());
        i = i + 1;
    }
    assert(artists@.subrange(0, n as int) =~= artists@);
    s
}

/// The songs of a playlist that remain once the song with this id is
/// removed, in their order.
pub open spec fn songs_without(songs: Seq<Song>, song_id: Option<i32>) -> Seq<Song> {
    songs.filter(|s: Song| s.id != song_id)
}

/// The playlist's song list after the song with this id is removed.
pub fn without_song(songs: Vec<Song>, song_id: Option<i32>) -> (out: Vec<Song>)
    ensures
        out@ == songs_without(songs@, song_id),
{
    let mut out: Vec<Song> = Vec::new();
    let ghost orig = songs@;
    let mut rest = songs;
    // Songs are taken from the back so that each removal is cheap; the kept
    // ones are put back in their order at the end.
    let mut kept_rev: Vec<Song> = Vec::new();
    while rest.len() > 0
        invariant
            rest@.len() <= orig.len(),
            rest@ == orig.subrange(0, rest@.len() as int),
            songs_without(orig, song_id) =~= songs_without(rest@, song_id) + kept_rev@.reverse(),
        decreases rest@.len(),
    {
        let ghost before = rest@;
        let song = rest.pop().unwrap();
        proof {
            assert(before =~= rest@.push(song));
            assert(before.drop_last() =~= rest@);
            reveal(Seq::filter);
            assert(rest@ =~= orig.subrange(0, rest@.len() as int));
        }
        if song.id != song_id {
            kept_rev.push(song);
            proof {
                assert(songs_without(before, song_id) =~= songs_without(rest@, song_id).push(song));
            }
        } else {
            proof {
                assert(songs_without(before, song_id) =~= songs_without(rest@, song_id));
            }
        }
    }
    while kept_rev.len() > 0
        invariant
            songs_without(orig, song_id) =~= out@ + kept_rev@.reverse(),
        decreases kept_rev@.len(),
    {
        let ghost before = kept_rev@;
        let song = kept_rev.pop().unwrap();
        out.push(song);
        proof {
            assert(before =~= kept_rev@.push(song));
        }
    }
    out
}

} // verus!

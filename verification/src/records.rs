//! What the stored records' requests need before they reach the database:
//! the record's own id, and, for likes and dislikes, which rows to write.
//!
//! A user's like and dislike of a song are rows of two tables. Liking a song
//! adds the like and removes any dislike; disliking adds the dislike and
//! removes any like; taking either back removes only that row. So a song is
//! never both liked and disliked by a user.

use vstd::prelude::*;

verus! {

/// A request on a stored record that needs the record's id.
#[derive(Clone, Copy, Debug, PartialEq, Eq, Structural)]
pub enum RecordRequest {
    /// A user's listening history.
    GetHistory,
    /// Recording a listen in a user's history.
    AddHistory,
    /// Whether a user has listened to a song.
    CheckHistory,
    /// Liking or taking back the like of a song.
    LikeSong,
    /// Whether a user likes a song.
    GetLikeStatus,
    /// The songs a user likes.
    GetLikedSongs,
    /// Disliking or taking back the dislike of a song.
    DislikeSong,
    /// Whether a user dislikes a song.
    GetDislikeStatus,
    /// The songs a user dislikes.
    GetDislikedSongs,
    /// Adding an album to an artist, or a song to an artist.
    ArtistAddAlbum,
    /// An artist's albums.
    ArtistGetAlbums,
    /// An artist's songs.
    ArtistGetSongs,
    /// Adding an artist to an album.
    AlbumAddArtist,
    /// An album's songs.
    AlbumGetSongs,
    /// A song's artists.
    SongGetArtists,
}

/// The message of the refusal of a request on a record that has no id.
pub open spec fn missing_id_text(r: RecordRequest) -> Seq<char> {
    match r {
        RecordRequest::GetHistory => "Artist id must be present (Some) to get history"@,
        RecordRequest::AddHistory => "Artist id must be present (Some) to add history"@,
        RecordRequest::CheckHistory => "Artist id must be present (Some) to check history"@,
        RecordRequest::LikeSong => "User id must be present (Some) to like/un-like a song"@,
        RecordRequest::GetLikeStatus => "User id must be present (Some) to get like status of a song"@,
        RecordRequest::GetLikedSongs => "User id must be present (Some) to get liked songs"@,
        RecordRequest::DislikeSong => "User id must be present (Some) to dislike/un-dislike a song"@,
        RecordRequest::GetDislikeStatus => "User id must be present (Some) to get dislike status of a song"@,
        RecordRequest::GetDislikedSongs => "User id must be present (Some) to get disliked songs"@,
        RecordRequest::ArtistAddAlbum => "Artist id must be present (Some) to add an album"@,
        RecordRequest::ArtistGetAlbums => "Artist id must be present (Some) to get albums"@,
        RecordRequest::ArtistGetSongs => "Artist id must be present (Some) to get songs"@,
        RecordRequest::AlbumAddArtist => "Album id must be present (Some) to add an artist"@,
        RecordRequest::AlbumGetSongs => "Album id must be present (Some) to get songs"@,
        RecordRequest::SongGetArtists => "Song id must be present (Some) to get artists"@,
    }
}

/// A request refused because its record has no id.
#[derive(Clone, Copy, Debug, PartialEq, Eq, Structural)]
pub struct MissingId {
    /// The refused request.
    pub request: RecordRequest,
}

impl MissingId {
    /// The message of the refusal.
    pub fn message(&self) -> (s: String)
        ensures
            s@ == missing_id_text(self.request),
    {
        match self.request {
            RecordRequest::GetHistory => String::from_str("Artist id must be present (Some) to get history"),
            RecordRequest::AddHistory => String::from_str("Artist id must be present (Some) to add history"),
            RecordRequest::CheckHistory => String::from_str(
                "Artist id must be present (Some) to check history",
            ),
            RecordRequest::LikeSong => String::from_str(
                "User id must be present (Some) to like/un-like a song",
            ),
            RecordRequest::GetLikeStatus => String::from_str(
                "User id must be present (Some) to get like status of a song",
            ),
            RecordRequest::GetLikedSongs => String::from_str(
                "User id must be present (Some) to get liked songs",
            ),
            RecordRequest::DislikeSong => String::from_str(
                "User id must be present (Some) to dislike/un-dislike a song",
            ),
            RecordRequest::GetDislikeStatus => String::from_str(
                "User id must be present (Some) to get dislike status of a song",
            ),
            RecordRequest::GetDislikedSongs => String::from_str(
                "User id must be present (Some) to get disliked songs",
            ),
            RecordRequest::ArtistAddAlbum => String::from_str(
                "Artist id must be present (Some) to add an album",
            ),
            RecordRequest::ArtistGetAlbums => String::from_str("Artist id must be present (Some) to get albums"),
            RecordRequest::ArtistGetSongs => String::from_str("Artist id must be present (Some) to get songs"),
            RecordRequest::AlbumAddArtist => String::from_str(
                "Album id must be present (Some) to add an artist",
            ),
            RecordRequest::AlbumGetSongs => String::from_str("Album id must be present (Some) to get songs"),
            RecordRequest::SongGetArtists => String::from_str("Song id must be present (Some) to get artists"),
        }
    }
}

/// The id of the record a request is on, or the refusal when it has none.
pub fn record_id(id: Option<i32>, request: RecordRequest) -> (r: Result<i32, MissingId>)
    ensures
        id is Some ==> r == Ok::<i32, MissingId>(id->0),
        id is None ==> r == Err::<i32, MissingId>(MissingId { request }),
{
    match id {
        Some(v) => Ok(v),
        None => Err(MissingId { request }),
    }
}

/// A write to the like and dislike tables, on one user's row for one song.
#[derive(Clone, Copy, Debug, PartialEq, Eq, Structural)]
pub enum PreferenceWrite {
    InsertLike,
    DeleteLike,
    InsertDislike,
    DeleteDislike,
}

/// Whether the user likes and dislikes the song after one write. Inserting a
/// row that is already there fails in the database and changes nothing;
/// deleting a row that is not there changes nothing either.
pub open spec fn after_write(state: (bool, bool), w: PreferenceWrite) -> (bool, bool) {
    match w {
        PreferenceWrite::InsertLike => (true, state.1),
        PreferenceWrite::DeleteLike => (false, state.1),
        PreferenceWrite::InsertDislike => (state.0, true),
        PreferenceWrite::DeleteDislike => (state.0, false),
    }
}

/// Whether the user likes and dislikes the song after all the writes, in
/// order.
pub open spec fn after_writes(state: (bool, bool), writes: Seq<PreferenceWrite>) -> (bool, bool)
    decreases writes.len(),
{
    if writes.len() == 0 {
        state
    } else {
        after_write(after_writes(state, writes.drop_last()), writes.last())
    }
}

/// The writes that like a song (`true`) or take the like back (`false`).
pub open spec fn like_writes_of(like: bool) -> Seq<PreferenceWrite> {
    if like {
        seq![PreferenceWrite::InsertLike, PreferenceWrite::DeleteDislike]
    } else {
        seq![PreferenceWrite::DeleteLike]
    }
}

/// The writes that dislike a song (`true`) or take the dislike back
/// (`false`).
pub open spec fn dislike_writes_of(dislike: bool) -> Seq<PreferenceWrite> {
    if dislike {
        seq![PreferenceWrite::InsertDislike, PreferenceWrite::DeleteLike]
    } else {
        seq![PreferenceWrite::DeleteDislike]
    }
}

/// The writes that set a user's like of a song: liking also removes the
/// dislike. Refused when the user has no id.
pub fn like_song_writes(user_id: Option<i32>, like: bool) -> (r: Result<(i32, Vec<PreferenceWrite>), MissingId>)
    ensures
        user_id is None ==> r == Err::<(i32, Vec<PreferenceWrite>), MissingId>(
            MissingId { request: RecordRequest::LikeSong },
        ),
        user_id is Some ==> (r matches Ok((id, w)) && id == user_id->0 && w@ == like_writes_of(like)),
{
    let id = record_id(user_id, RecordRequest::LikeSong)?;
    let mut w: Vec<PreferenceWrite> = Vec::new();
    if like {
        w.push(PreferenceWrite::InsertLike);
        w.push(PreferenceWrite::DeleteDislike);
    } else {
        w.push(PreferenceWrite::DeleteLike);
    }
    assert(w@ =~= like_writes_of(like));
    Ok((id, w))
}

/// The writes that set a user's dislike of a song: disliking also removes
/// the like. Refused when the user has no id.
pub fn dislike_song_writes(user_id: Option<i32>, dislike: bool) -> (r: Result<(i32, Vec<PreferenceWrite>), MissingId>)
    ensures
        user_id is None ==> r == Err::<(i32, Vec<PreferenceWrite>), MissingId>(
            MissingId { request: RecordRequest::DislikeSong },
        ),
        user_id is Some ==> (r matches Ok((id, w)) && id == user_id->0 && w@ == dislike_writes_of(
            dislike,
        )),
{
    let id = record_id(user_id, RecordRequest::DislikeSong)?;
    let mut w: Vec<PreferenceWrite> = Vec::new();
    if dislike {
        w.push(PreferenceWrite::InsertDislike);
        w.push(PreferenceWrite::DeleteLike);
    } else {
        w.push(PreferenceWrite::DeleteDislike);
    }
    assert(w@ =~= dislike_writes_of(dislike));
    Ok((id, w))
}

/// Once all its writes are done, liking a song leaves it liked and not
/// disliked, and taking the like back leaves it not liked, its dislike as
/// it was.
pub proof fn law_like_writes_effect(state: (bool, bool), like: bool)
    ensures
        like ==> after_writes(state, like_writes_of(like)) == (true, false),
        !like ==> after_writes(state, like_writes_of(like)) == (false, state.1),
{
    reveal_with_fuel(after_writes, 3);
    assert(seq![PreferenceWrite::InsertLike, PreferenceWrite::DeleteDislike].drop_last()
        =~= seq![PreferenceWrite::InsertLike]);
    assert(seq![PreferenceWrite::InsertLike].drop_last() =~= Seq::<PreferenceWrite>::empty());
    assert(seq![PreferenceWrite::DeleteLike].drop_last() =~= Seq::<PreferenceWrite>::empty());
}

/// Once all its writes are done, disliking a song leaves it disliked and
/// not liked, and taking the dislike back leaves it not disliked, its like
/// as it was.
pub proof fn law_dislike_writes_effect(state: (bool, bool), dislike: bool)
    ensures
        dislike ==> after_writes(state, dislike_writes_of(dislike)) == (false, true),
        !dislike ==> after_writes(state, dislike_writes_of(dislike)) == (state.0, false),
{
    reveal_with_fuel(after_writes, 3);
    assert(seq![PreferenceWrite::InsertDislike, PreferenceWrite::DeleteLike].drop_last()
        =~= seq![PreferenceWrite::InsertDislike]);
    assert(seq![PreferenceWrite::InsertDislike].drop_last() =~= Seq::<PreferenceWrite>::empty());
    assert(seq![PreferenceWrite::DeleteDislike].drop_last() =~= Seq::<PreferenceWrite>::empty());
}

/// A song that is not both liked and disliked by a user stays so after any
/// like or dislike request has done its writes.
pub proof fn law_never_both_stored(state: (bool, bool), set_like: bool, value: bool)
    requires
        !(state.0 && state.1),
    ensures
        ({
            let after = if set_like {
                after_writes(state, like_writes_of(value))
            } else {
                after_writes(state, dislike_writes_of(value))
            };
            !(after.0 && after.1)
        }),
{
    law_like_writes_effect(state, value);
    law_dislike_writes_effect(state, value);
}

} // verus!

//! The catalogue records as the database stores them.

use vstd::prelude::*;

verus! {

/// An artist.
#[derive(Clone, Debug)]
pub struct Artist {
    /// A unique id for the artist, absent before the artist is stored.
    pub id: Option<i32>,
    /// The artist's name.
    pub name: String,
}

/// An album.
#[derive(Clone, Debug)]
pub struct Album {
    /// A unique id for the album, absent before the album is stored.
    pub id: Option<i32>,
    /// The album's title.
    pub title: String,
    /// The album's release date, as a day number from the start of the common era.
    pub release_date: Option<i32>,
    /// The path to the album's image file.
    pub image_path: Option<String>,
}

/// A song.
#[derive(Clone, Debug)]
pub struct Song {
    /// A unique id for the song, absent before the song is stored.
    pub id: Option<i32>,
    /// The song's title.
    pub title: String,
    /// The album the song is from.
    pub album_id: Option<i32>,
    /// The track number of the song on the album.
    pub track: Option<i32>,
    /// The duration of the song in seconds.
    pub duration: i32,
    /// The song's release date, as a day number from the start of the common era.
    pub release_date: Option<i32>,
    /// The path to the song's audio file.
    pub storage_path: String,
    /// The path to the song's image file.
    pub image_path: Option<String>,
    /// When the song was added, in microseconds since the Unix epoch.
    pub added_date: Option<i64>,
}

/// A user.
#[derive(Clone, Debug)]
pub struct User {
    /// A unique id for the user, absent before the user is stored.
    pub id: Option<i32>,
    /// The user's username.
    pub username: String,
    /// The user's email.
    pub email: String,
    /// The user's password: in plain text on sign-up, otherwise its hash.
    pub password: Option<String>,
    /// When the user was created, in microseconds since the Unix epoch.
    pub created_at: Option<i64>,
    /// Whether the user is an admin.
    pub admin: bool,
}

/// One listen of a song by a user.
#[derive(Clone, Debug)]
pub struct HistoryEntry {
    /// A unique id for the history entry.
    pub id: Option<i32>,
    /// The id of the user who listened to the song.
    pub user_id: i32,
    /// When the song was listened to, in microseconds since the Unix epoch.
    pub date: i64,
    /// The id of the song that was listened to.
    pub song_id: i32,
}

/// A playlist.
#[derive(Clone, Debug)]
pub struct Playlist {
    /// A unique id for the playlist.
    pub id: Option<i32>,
    /// When the playlist was created, in microseconds since the Unix epoch.
    pub created_at: Option<i64>,
    /// When the playlist was last updated, in microseconds since the Unix epoch.
    pub updated_at: Option<i64>,
    /// The id of the user who owns the playlist.
    pub owner_id: i32,
    /// The name of the playlist.
    pub name: String,
}

/// The names of a list of artists, in order.
pub open spec fn artist_names(artists: Seq<Artist>) -> Seq<Seq<char>> {
    artists.map_values(|a: Artist| a.name@)
}

/// What stands before the `i`-th of `n` names in a displayed list: nothing
/// before the first, " & " before the second of two, ", & " before the last
/// of three or more, and ", " before any other.
pub open spec fn list_separator(i: int, n: int) -> Seq<char> {
    if i == 0 {
        Seq::empty()
    } else if i == n - 1 {
        if n == 2 {
            seq![' ', '&', ' ']
        } else {
            seq![',', ' ', '&', ' ']
        }
    } else {
        seq![',', ' ']
    }
}

/// The first `k` names of `names`, each preceded by its separator.
pub open spec fn display_prefix(names: Seq<Seq<char>>, k: int) -> Seq<char>
    decreases k,
{
    if k <= 0 {
        Seq::empty()
    } else {
        display_prefix(names, k - 1) + list_separator(k - 1, names.len() as int) + names[k - 1]
    }
}

/// A list of names as displayed: "a", "a & b", "a, b, & c", "a, b, c, & d", ...
pub open spec fn display_names(names: Seq<Seq<char>>) -> Seq<char> {
    display_prefix(names, names.len() as int)
}

impl Artist {
    /// Displays a list of artists as a string.
    ///
    /// For one artist, displays [artist1]. For two artists, displays
    /// [artist1] & [artist2]. For three or more artists, displays
    /// [artist1], [artist2], & [artist3].
    pub fn display_list(artists: &[Artist]) -> (s: String)
        ensures
            s@ == display_names(artist_names(artists@)),
    {
        let n = artists.len();
        let mut artist_list = String::new();
        let ghost names = artist_names(artists@);
        let mut i: usize = 0;
        while i < n
            invariant
                n == artists@.len(),
                names == artist_names(artists@),
                i <= n,
                artist_list@ == display_prefix(names, i as int),
            decreases n - i,
        {
            let ghost before = artist_list@;
            proof {
                reveal_strlit(" & ");
                reveal_strlit(", & ");
                reveal_strlit(", ");
            }
            if i == 0 {
                assert(artist_list@ =~= before + list_separator(i as int, n as int));
            } else if i == n - 1 {
                if n == 2 {
                    artist_list.append(" & ");
                    assert(" & "@ =~= list_separator(i as int, n as int));
                } else {
                    artist_list.append(", & ");
                    assert(", & "@ =~= list_separator(i as int, n as int));
                }
            } else {
                artist_list.append(", ");
                assert(", "@ =~= list_separator(i as int, n as int));
            }
            artist_list.append(artists[i].name.as_str());
            proof {
                assert(names[i as int] == artists@[i as int].name@);
                assert(artist_list@ =~= before + list_separator(i as int, n as int) + names[i as int]);
            }
            i = i + 1;
        }
        artist_list
    }
}

/// A displayed list of two names joins them with " & ", and one of three
/// puts ", " after the first and ", & " before the last.
pub proof fn law_display_names_short(a: Seq<char>, b: Seq<char>, c: Seq<char>)
    ensures
        display_names(seq![a]) == a,
        display_names(seq![a, b]) == a + " & "@ + b,
        display_names(seq![a, b, c]) == a + ", "@ + b + ", & "@ + c,
{
    reveal_strlit(" & ");
    reveal_strlit(", ");
    reveal_strlit(", & ");
    reveal_with_fuel(display_prefix, 4);
    assert(display_names(seq![a]) =~= a);
    assert(display_names(seq![a, b]) =~= a + " & "@ + b);
    assert(display_names(seq![a, b, c]) =~= a + ", "@ + b + ", & "@ + c);
}

} // verus!

use libretunes::links::{album_link, artist_links};
use libretunes::album_lists::{album_page, albums_from_rows, AlbumArtistRow, AlbumListError};
use libretunes::models::backend::{Album, Artist, HistoryEntry, Song};
use libretunes::ranking::sort_by_rank;
use libretunes::song_lists::{
    album_songs, like_dislike, merge_song_rows, recent_songs, song_from_rows, song_image_path, songs_with_plays,
    AlbumSongRow, HistorySongRow, SongListError, SongQueryRow, SongRow, PLACEHOLDER_IMAGE,
};

fn artist(id: i32, name: &str) -> Artist {
    Artist { id: Some(id), name: name.to_string() }
}

fn album(id: Option<i32>, title: &str, date: Option<i32>, image: Option<&str>) -> Album {
    Album { id, title: title.to_string(), release_date: date, image_path: image.map(|s| s.to_string()) }
}

fn song(id: Option<i32>, title: &str, track: Option<i32>, added: i64) -> Song {
    Song {
        id,
        title: title.to_string(),
        album_id: None,
        track,
        duration: 200,
        release_date: None,
        storage_path: format!("/audio/{}.mp3", title),
        image_path: None,
        added_date: Some(added),
    }
}

fn names(artists: &[Artist]) -> Vec<String> {
    artists.iter().map(|a| a.name.clone()).collect()
}

fn query_row(s: Song, a: Option<Artist>) -> SongQueryRow {
    SongQueryRow { song: s, album: None, artist: a, liked: false, disliked: false }
}

#[test]
fn like_dislike_shown_only_when_set() {
    assert_eq!(like_dislike(false, false), None);
    assert_eq!(like_dislike(true, false), Some((true, false)));
    assert_eq!(like_dislike(false, true), Some((false, true)));
    assert_eq!(like_dislike(true, true), Some((true, true)));
}

#[test]
fn song_image_falls_back_to_album_then_placeholder() {
    assert_eq!(song_image_path(Some("/s.png".to_string()), &None), "/s.png");
    let al = Some(album(Some(1), "R", None, Some("/al.png")));
    assert_eq!(song_image_path(None, &al), "/al.png");
    let bare = Some(album(Some(1), "R", None, None));
    assert_eq!(song_image_path(None, &bare), PLACEHOLDER_IMAGE);
    assert_eq!(song_image_path(None, &None), "/assets/images/placeholders/MusicPlaceholder.svg");
}

#[test]
fn merge_song_rows_groups_by_song() {
    let rows = vec![
        SongRow { id: 1, song: song(Some(1), "A", Some(2), 100), album: None, artist: Some(artist(1, "X")), liked: true, disliked: false },
        SongRow {
            id: 2,
            song: song(Some(2), "B", None, 200),
            album: Some(album(Some(5), "Al", None, Some("/al.png"))),
            artist: Some(artist(2, "Y")),
            liked: false,
            disliked: false,
        },
        SongRow { id: 1, song: song(Some(1), "A", Some(2), 100), album: None, artist: Some(artist(3, "Z")), liked: false, disliked: true },
    ];
    let out = merge_song_rows(rows);
    assert_eq!(out.len(), 2);
    assert_eq!(out[0].id, 1);
    assert_eq!(out[0].title, "A");
    assert_eq!(names(&out[0].artists), vec!["X", "Z"]);
    assert_eq!(out[0].like_dislike, Some((true, false)));
    assert_eq!(out[0].image_path, PLACEHOLDER_IMAGE);
    assert_eq!(out[0].added_date, 100);
    assert_eq!(out[0].song_path, "/audio/A.mp3");
    assert_eq!(out[1].id, 2);
    assert_eq!(names(&out[1].artists), vec!["Y"]);
    assert_eq!(out[1].image_path, "/al.png");
    assert_eq!(out[1].like_dislike, None);
    assert_eq!(out[1].album.as_ref().map(|a| a.title.clone()), Some("Al".to_string()));
}

#[test]
fn album_songs_in_track_order() {
    let al = album(Some(7), "Record", Some(738950), None);
    let row = |s: Option<Song>, a: Option<Artist>| AlbumSongRow { album: al.clone(), song: s, artist: a, liked: false, disliked: false };
    let rows = vec![
        row(Some(song(Some(10), "Ten", Some(2), 1)), Some(artist(1, "X"))),
        row(Some(song(Some(11), "Eleven", Some(1), 1)), Some(artist(2, "Y"))),
        row(Some(song(Some(10), "Ten", Some(2), 1)), Some(artist(3, "Z"))),
        row(Some(song(Some(12), "Twelve", None, 1)), None),
        row(None, None),
    ];
    let out = album_songs(rows);
    let ids: Vec<i32> = out.iter().map(|s| s.id).collect();
    assert_eq!(ids, vec![12, 11, 10]);
    assert_eq!(names(&out[2].artists), vec!["X", "Z"]);
    assert!(out[0].artists.is_empty());
    assert_eq!(out[1].album.as_ref().map(|a| a.id), Some(Some(7)));
}

#[test]
fn album_with_no_songs_lists_nothing() {
    let rows = vec![AlbumSongRow { album: album(Some(7), "Empty", None, None), song: None, artist: None, liked: false, disliked: false }];
    assert!(album_songs(rows).is_empty());
}

#[test]
fn songs_with_plays_most_played_first() {
    let rows = vec![
        query_row(song(Some(1), "A", None, 1), Some(artist(1, "X"))),
        query_row(song(Some(2), "B", None, 1), Some(artist(2, "Y"))),
        query_row(song(Some(3), "C", None, 1), None),
        query_row(song(Some(1), "A", None, 1), Some(artist(3, "Z"))),
    ];
    let counts = vec![(1, 3), (2, 7), (3, 3), (1, 5)];
    let out = songs_with_plays(rows, counts).unwrap();
    let got: Vec<(i64, i32)> = out.iter().map(|(p, s)| (*p, s.id)).collect();
    assert_eq!(got, vec![(7, 2), (5, 1), (3, 3)]);
    assert_eq!(names(&out[1].1.artists), vec!["X", "Z"]);
}

#[test]
fn songs_with_plays_errors_in_row_order() {
    let no_id = vec![query_row(song(None, "A", None, 1), None)];
    assert_eq!(songs_with_plays(no_id, vec![]).unwrap_err(), SongListError::MissingSongId);
    let uncounted = vec![
        query_row(song(Some(1), "A", None, 1), None),
        query_row(song(Some(2), "B", None, 1), None),
        query_row(song(None, "C", None, 1), None),
    ];
    assert_eq!(songs_with_plays(uncounted, vec![(1, 4)]).unwrap_err(), SongListError::MissingPlayCount);
    assert_eq!(SongListError::MissingSongId.message(), "Song id not found in database");
    assert_eq!(SongListError::MissingPlayCount.message(), "Song id not found in history counts");
}

#[test]
fn recent_songs_use_first_listen_date() {
    let hist = |song_id: i32, date: i64| HistoryEntry { id: Some(1), user_id: 1, date, song_id };
    let row = |h: HistoryEntry, s: Song, a: Option<Artist>| HistorySongRow {
        history: h,
        song: s,
        album: None,
        artist: a,
        liked: false,
        disliked: false,
    };
    let rows = vec![
        row(hist(2, 500), song(Some(2), "B", None, 1), Some(artist(1, "X"))),
        row(hist(1, 400), song(Some(1), "A", None, 1), None),
        row(hist(2, 300), song(Some(2), "B", None, 1), Some(artist(2, "Y"))),
    ];
    let out = recent_songs(rows);
    let got: Vec<(i64, i32)> = out.iter().map(|(d, s)| (*d, s.id)).collect();
    assert_eq!(got, vec![(500, 2), (400, 1)]);
    assert_eq!(names(&out[0].1.artists), vec!["X", "Y"]);
}

#[test]
fn song_from_rows_gathers_artists() {
    assert!(song_from_rows(vec![]).is_none());
    let rows = vec![
        SongQueryRow { song: song(Some(4), "D", Some(1), 9), album: None, artist: Some(artist(1, "X")), liked: true, disliked: false },
        SongQueryRow { song: song(Some(4), "D", Some(1), 9), album: None, artist: Some(artist(2, "Y")), liked: false, disliked: false },
    ];
    let s = song_from_rows(rows).unwrap();
    assert_eq!(s.id, 4);
    assert_eq!(names(&s.artists), vec!["X", "Y"]);
    assert_eq!(s.like_dislike, Some((true, false)));
    assert_eq!(s.track, Some(1));
    assert_eq!(s.added_date, 9);
}

#[test]
fn sort_by_rank_is_stable() {
    let out = sort_by_rank(vec![(1i64, 'a'), (3, 'b'), (1, 'c'), (3, 'd'), (2, 'e')]);
    assert_eq!(out, vec![(3, 'b'), (3, 'd'), (2, 'e'), (1, 'a'), (1, 'c')]);
}

#[test]
fn albums_newest_first() {
    let rows = vec![
        AlbumArtistRow { album: album(Some(1), "Old", Some(700000), None), artist: artist(1, "X") },
        AlbumArtistRow { album: album(Some(2), "Undated", None, Some("/u.png")), artist: artist(1, "X") },
        AlbumArtistRow { album: album(Some(3), "New", Some(738950), None), artist: artist(1, "X") },
        AlbumArtistRow { album: album(Some(1), "Old", Some(700000), None), artist: artist(2, "Y") },
    ];
    let out = albums_from_rows(rows).unwrap();
    let ids: Vec<i32> = out.iter().map(|a| a.id).collect();
    assert_eq!(ids, vec![3, 1, 2]);
    assert_eq!(names(&out[1].artists), vec!["X", "Y"]);
    assert_eq!(out[0].image_path, PLACEHOLDER_IMAGE);
    assert_eq!(out[2].image_path, "/u.png");
}

#[test]
fn albums_need_ids() {
    let rows = vec![AlbumArtistRow { album: album(None, "R", None, None), artist: artist(1, "X") }];
    assert_eq!(albums_from_rows(rows).unwrap_err(), AlbumListError::MissingAlbumId);
    assert_eq!(AlbumListError::MissingAlbumId.message(), "Album id not found in database");
}

#[test]
fn album_page_uses_placeholder() {
    let a = album_page(album(Some(4), "R", Some(5), None), vec![artist(1, "X")]);
    assert_eq!(a.id, 4);
    assert_eq!(a.title, "R");
    assert_eq!(a.release_date, Some(5));
    assert_eq!(a.image_path, PLACEHOLDER_IMAGE);
    assert_eq!(names(&a.artists), vec!["X"]);
}

#[test]
fn song_list_artist_links() {
    let artists = vec![artist(1, "A"), Artist { id: None, name: "B".to_string() }, artist(3, "C")];
    let links = artist_links(&artists);
    let shown: Vec<(String, Option<String>, String)> =
        links.iter().map(|l| (l.text.clone(), l.link.clone(), l.separator.clone())).collect();
    assert_eq!(
        shown,
        vec![
            ("A".to_string(), Some("/artist/1".to_string()), ", ".to_string()),
            ("B".to_string(), None, " & ".to_string()),
            ("C".to_string(), Some("/artist/3".to_string()), String::new()),
        ]
    );
    let one = artist_links(&[artist(9, "Solo")]);
    assert_eq!(one[0].separator, "");
    assert!(artist_links(&[]).is_empty());
    let al = album_link(&Some(album(Some(4), "Record", None, None))).unwrap();
    assert_eq!(al.text, "Record");
    assert_eq!(al.link, Some("/album/4".to_string()));
    assert!(album_link(&Some(album(None, "Loose", None, None))).unwrap().link.is_none());
    assert!(album_link(&None).is_none());
}

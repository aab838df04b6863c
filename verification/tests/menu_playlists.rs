use libretunes::menu::{active_entry, dashboard_active, overlay_shown, search_active, MenuEntry};
use libretunes::models::backend::{Artist, Song};
use libretunes::playlists::{
    artists_line, new_playlist, playlist_id_for_songs, playlist_song_ids, without_song, PlaylistAction, PlaylistError,
};
use libretunes::records::{dislike_song_writes, like_song_writes, record_id, MissingId, PreferenceWrite, RecordRequest};
use libretunes::scrolling::{scroll_target, ScrollDirection};

fn song(id: Option<i32>, title: &str) -> Song {
    Song {
        id,
        title: title.to_string(),
        album_id: None,
        track: None,
        duration: 100,
        release_date: None,
        storage_path: String::new(),
        image_path: None,
        added_date: None,
    }
}

#[test]
fn menu_entries() {
    assert_eq!(MenuEntry::all(), [MenuEntry::Dashboard, MenuEntry::Search]);
    assert_eq!(MenuEntry::Dashboard.path(), "/dashboard");
    assert_eq!(MenuEntry::Search.path(), "/search");
    assert_eq!(MenuEntry::Dashboard.title(), "Dashboard");
    assert_eq!(MenuEntry::Search.title(), "Search");
}

#[test]
fn active_entry_matches_exact_path() {
    assert_eq!(active_entry("/dashboard"), Some(MenuEntry::Dashboard));
    assert_eq!(active_entry("/search"), Some(MenuEntry::Search));
    assert_eq!(active_entry("/search/x"), None);
    assert_eq!(active_entry("/"), None);
    assert_eq!(active_entry(""), None);
}

#[test]
fn sidebar_current_page() {
    assert!(dashboard_active("/"));
    assert!(dashboard_active("/dashboard"));
    assert!(dashboard_active("/dashboard/more"));
    assert!(!dashboard_active("/dash"));
    assert!(!dashboard_active("/search"));
    assert!(search_active("/search"));
    assert!(search_active("/searching"));
    assert!(!search_active("/"));
}

#[test]
fn overlay_while_any_dialog_open() {
    assert!(!overlay_shown(false, false, false));
    assert!(overlay_shown(true, false, false));
    assert!(overlay_shown(false, true, false));
    assert!(overlay_shown(false, false, true));
}

#[test]
fn playlist_requests_need_ids() {
    assert_eq!(playlist_song_ids(PlaylistAction::AddSong, Some(1), Some(2)), Ok((1, 2)));
    let e = playlist_song_ids(PlaylistAction::AddSong, None, None).unwrap_err();
    assert_eq!(e, PlaylistError::MissingPlaylistId(PlaylistAction::AddSong));
    assert_eq!(e.message(), "Playlist id must be present (Some) to add song");
    let e = playlist_song_ids(PlaylistAction::RemoveSong, Some(1), None).unwrap_err();
    assert_eq!(e.message(), "Song id must be present (Some) to remove song");
    assert_eq!(playlist_id_for_songs(Some(4)), Ok(4));
    assert_eq!(
        playlist_id_for_songs(None).unwrap_err().message(),
        "Playlist id must be present (Some) to get songs"
    );
}

#[test]
fn new_playlist_is_unsaved() {
    let p = new_playlist("Mix".to_string(), 3);
    assert_eq!(p.id, None);
    assert_eq!(p.created_at, None);
    assert_eq!(p.updated_at, None);
    assert_eq!(p.owner_id, 3);
    assert_eq!(p.name, "Mix");
}

#[test]
fn playlist_artists_line() {
    let a = |n: &str| Artist { id: Some(1), name: n.to_string() };
    assert_eq!(artists_line(&[]), "");
    assert_eq!(artists_line(&[a("X")]), "X");
    assert_eq!(artists_line(&[a("X"), a("Y"), a("Z")]), "X & Y & Z");
}

#[test]
fn removing_song_from_list() {
    let songs = vec![song(Some(1), "a"), song(Some(2), "b"), song(Some(1), "c"), song(None, "d")];
    let out = without_song(songs, Some(1));
    let titles: Vec<String> = out.iter().map(|s| s.title.clone()).collect();
    assert_eq!(titles, vec!["b", "d"]);
    let out2 = without_song(vec![song(None, "x"), song(Some(5), "y")], None);
    assert_eq!(out2.len(), 1);
    assert_eq!(out2[0].title, "y");
}

#[test]
fn record_ids_and_messages() {
    assert_eq!(record_id(Some(3), RecordRequest::AddHistory), Ok(3));
    let e = record_id(None, RecordRequest::AddHistory).unwrap_err();
    assert_eq!(e, MissingId { request: RecordRequest::AddHistory });
    assert_eq!(e.message(), "Artist id must be present (Some) to add history");
    assert_eq!(
        MissingId { request: RecordRequest::SongGetArtists }.message(),
        "Song id must be present (Some) to get artists"
    );
    assert_eq!(
        MissingId { request: RecordRequest::GetDislikeStatus }.message(),
        "User id must be present (Some) to get dislike status of a song"
    );
}

#[test]
fn like_and_dislike_writes() {
    let (id, w) = like_song_writes(Some(9), true).unwrap();
    assert_eq!(id, 9);
    assert_eq!(w, vec![PreferenceWrite::InsertLike, PreferenceWrite::DeleteDislike]);
    assert_eq!(like_song_writes(Some(9), false).unwrap().1, vec![PreferenceWrite::DeleteLike]);
    assert_eq!(dislike_song_writes(Some(9), true).unwrap().1, vec![PreferenceWrite::InsertDislike, PreferenceWrite::DeleteLike]);
    assert_eq!(dislike_song_writes(Some(9), false).unwrap().1, vec![PreferenceWrite::DeleteDislike]);
    assert_eq!(
        like_song_writes(None, true).unwrap_err().message(),
        "User id must be present (Some) to like/un-like a song"
    );
    assert_eq!(
        dislike_song_writes(None, false).unwrap_err().message(),
        "User id must be present (Some) to dislike/un-dislike a song"
    );
}

#[test]
fn like_writes_never_leave_both_on_values() {
    let apply = |state: (bool, bool), w: &[PreferenceWrite]| {
        let mut s = state;
        for x in w {
            s = match x {
                PreferenceWrite::InsertLike => (true, s.1),
                PreferenceWrite::DeleteLike => (false, s.1),
                PreferenceWrite::InsertDislike => (s.0, true),
                PreferenceWrite::DeleteDislike => (s.0, false),
            };
        }
        s
    };
    for state in [(false, false), (true, false), (false, true)] {
        for v in [false, true] {
            let a = apply(state, &like_song_writes(Some(1), v).unwrap().1);
            let b = apply(state, &dislike_song_writes(Some(1), v).unwrap().1);
            assert!(!(a.0 && a.1));
            assert!(!(b.0 && b.1));
        }
    }
}

#[test]
fn scroll_snaps_to_tiles() {
    // Page width 500, at 730, tiles of 200: left goes to 230, then forward to 400.
    assert_eq!(scroll_target(ScrollDirection::Left, 500, 730, Some(200)), 400);
    // Right goes to 1230, then back to 1200.
    assert_eq!(scroll_target(ScrollDirection::Right, 500, 730, Some(200)), 1200);
    // Left past the start: -270 % 200 is -70, so -270 + (200 + 70) = 0.
    assert_eq!(scroll_target(ScrollDirection::Left, 500, 230, Some(200)), 0);
    // Exactly on a boundary, the left button still moves one tile forward.
    assert_eq!(scroll_target(ScrollDirection::Left, 400, 800, Some(200)), 600);
    assert_eq!(scroll_target(ScrollDirection::Right, 500, 730, None), 1230);
    assert_eq!(scroll_target(ScrollDirection::Left, 500, 730, None), 230);
}

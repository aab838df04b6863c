use libretunes::models::backend::{Album, Artist};
use libretunes::models::frontend::Song;
use libretunes::play_status::{press_dislike_in_list, press_like_in_list, ListenTracker, PlayStatus, Preference};

fn song(id: i32, title: &str, artists: &[&str]) -> Song {
    Song {
        id,
        title: title.to_string(),
        artists: artists
            .iter()
            .enumerate()
            .map(|(i, n)| Artist { id: Some(i as i32 + 1), name: n.to_string() })
            .collect(),
        album: None,
        track: None,
        duration: 180,
        release_date: None,
        song_path: format!("/audio/{}.mp3", id),
        image_path: format!("/img/{}.png", id),
        like_dislike: None,
        added_date: 0,
    }
}

fn ids(q: &std::collections::VecDeque<Song>) -> Vec<i32> {
    q.iter().map(|s| s.id).collect()
}

#[test]
fn new_player_is_empty() {
    let p = PlayStatus::new();
    assert!(!p.playing && !p.queue_open && !p.search_active);
    assert!(p.queue.is_empty() && p.history.is_empty());
    assert_eq!(p.current_song_id(), None);
    assert_eq!(p.current_song_path(), None);
}

#[test]
fn song_ended_moves_current_to_history() {
    let mut p = PlayStatus::new();
    p.queue.push_back(song(1, "One", &[]));
    p.queue.push_back(song(2, "Two", &[]));
    p.song_ended();
    assert_eq!(ids(&p.queue), vec![2]);
    assert_eq!(ids(&p.history), vec![1]);
    p.song_ended();
    p.song_ended();
    assert!(p.queue.is_empty());
    assert_eq!(ids(&p.history), vec![1, 2]);
}

#[test]
fn previous_song_moves_latest_back() {
    let mut p = PlayStatus::new();
    assert!(!p.previous_song());
    p.history.push_back(song(1, "One", &[]));
    p.history.push_back(song(2, "Two", &[]));
    p.queue.push_back(song(3, "Three", &[]));
    assert!(p.previous_song());
    assert_eq!(ids(&p.queue), vec![2, 3]);
    assert_eq!(ids(&p.history), vec![1]);
}

#[test]
fn previous_undoes_song_ended_on_values() {
    let mut p = PlayStatus::new();
    p.history.push_back(song(1, "One", &[]));
    p.queue.push_back(song(2, "Two", &[]));
    p.queue.push_back(song(3, "Three", &[]));
    p.song_ended();
    p.previous_song();
    assert_eq!(ids(&p.history), vec![1]);
    assert_eq!(ids(&p.queue), vec![2, 3]);
}

#[test]
fn toggle_queue_twice_restores() {
    let mut p = PlayStatus::new();
    p.toggle_queue();
    assert!(p.queue_open);
    p.toggle_queue();
    assert!(!p.queue_open);
}

#[test]
fn play_song_toggles_current_or_replaces_queue() {
    let mut p = PlayStatus::new();
    p.queue.push_back(song(1, "One", &[]));
    p.queue.push_back(song(2, "Two", &[]));
    p.play_song(song(1, "One", &[]));
    assert!(p.playing);
    assert!(p.is_playing_song(1));
    p.play_song(song(1, "One", &[]));
    assert!(!p.playing);
    assert!(!p.is_playing_song(1));
    p.play_song(song(5, "Five", &[]));
    assert!(p.playing);
    assert_eq!(ids(&p.queue), vec![5]);
    assert!(p.is_playing_song(5));
    assert!(!p.is_playing_song(1));
}

#[test]
fn press_like_flips_and_clears_dislike() {
    let mut p = PlayStatus::new();
    assert_eq!(p.press_like(), None);
    let mut s = song(4, "Four", &[]);
    s.like_dislike = Some((false, true));
    p.queue.push_back(s);
    assert_eq!(p.press_like(), Some(Preference { song_id: 4, value: true }));
    assert_eq!(p.queue[0].like_dislike, Some((true, false)));
    assert_eq!(p.press_like(), Some(Preference { song_id: 4, value: false }));
    assert_eq!(p.queue[0].like_dislike, Some((false, false)));
}

#[test]
fn press_dislike_of_unknown_song() {
    let mut p = PlayStatus::new();
    p.queue.push_back(song(4, "Four", &[]));
    assert_eq!(p.press_dislike(), Some(Preference { song_id: 4, value: true }));
    assert_eq!(p.queue[0].like_dislike, Some((false, true)));
    let mut q = PlayStatus::new();
    assert_eq!(q.press_dislike(), None);
    let mut liked = song(6, "Six", &[]);
    liked.like_dislike = Some((true, false));
    q.queue.push_back(liked);
    assert_eq!(q.press_dislike(), Some(Preference { song_id: 6, value: true }));
    assert_eq!(q.queue[0].like_dislike, Some((false, true)));
}

#[test]
fn media_info_of_current_song() {
    let mut p = PlayStatus::new();
    assert_eq!(p.media_name(), "No media playing");
    assert_eq!(p.media_artists(), "");
    assert_eq!(p.media_album(), "");
    assert_eq!(p.media_image(), "/images/placeholders/MusicPlaceholder.svg");
    assert_eq!(p.page_title(), "LibreTunes");
    let mut s = song(9, "Nine", &["A", "B"]);
    s.album = Some(Album { id: Some(1), title: "Record".to_string(), release_date: None, image_path: None });
    p.queue.push_back(s);
    assert_eq!(p.media_name(), "Nine");
    assert_eq!(p.media_artists(), "A & B");
    assert_eq!(p.media_album(), "Record");
    assert_eq!(p.media_image(), "/img/9.png");
    assert_eq!(p.page_title(), "Nine - A & B | LibreTunes");
    assert_eq!(p.current_song_id(), Some(9));
    assert_eq!(p.current_song_path(), Some("/audio/9.mp3".to_string()));
}

#[test]
fn list_buttons_never_leave_both() {
    assert_eq!(press_like_in_list(false, true), (true, false));
    assert_eq!(press_like_in_list(true, false), (false, false));
    assert_eq!(press_dislike_in_list(true, false), (false, true));
    assert_eq!(press_dislike_in_list(false, true), (false, false));
    for l in [false, true] {
        for d in [false, true] {
            let a = press_like_in_list(l, d);
            let b = press_dislike_in_list(l, d);
            assert!(!(a.0 && a.1));
            assert!(!(b.0 && b.1));
        }
    }
}

#[test]
fn listen_tracker_reports_each_song_once() {
    let mut t = ListenTracker::new();
    assert_eq!(t.listened(None), None);
    assert_eq!(t.listened(Some(3)), Some(3));
    assert_eq!(t.listened(Some(3)), None);
    assert_eq!(t.listened(Some(4)), Some(4));
    assert_eq!(t.listened(Some(3)), Some(3));
}

#[test]
fn search_bar_focus_flag() {
    let mut p = PlayStatus::new();
    p.set_search_active(true);
    assert!(p.search_active);
    p.set_search_active(false);
    assert!(!p.search_active);
}

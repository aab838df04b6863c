use libretunes::durations::{clock, convert_seconds, convert_to_text_time, play_duration, total_duration};
use libretunes::models::backend::Song;
use libretunes::text::{int_to_string, nat_to_string, same_text};

fn song_of_length(duration: i32) -> Song {
    Song {
        id: Some(1),
        title: "Song".to_string(),
        album_id: None,
        track: None,
        duration,
        release_date: None,
        storage_path: "/audio/song.mp3".to_string(),
        image_path: None,
        added_date: Some(0),
    }
}

#[test]
fn decimal_rendering_of_integers() {
    assert_eq!(int_to_string(0), "0");
    assert_eq!(int_to_string(7), "7");
    assert_eq!(int_to_string(-42), "-42");
    assert_eq!(int_to_string(1234567890), "1234567890");
    assert_eq!(int_to_string(i64::MIN), "-9223372036854775808");
    assert_eq!(int_to_string(i64::MAX), "9223372036854775807");
    assert_eq!(nat_to_string(10), "10");
    assert_eq!(nat_to_string(u64::MAX), "18446744073709551615");
}

#[test]
fn convert_seconds_pads_seconds() {
    assert_eq!(convert_seconds(125), "2:05");
    assert_eq!(convert_seconds(600), "10:00");
    assert_eq!(convert_seconds(59), "0:59");
    assert_eq!(convert_seconds(0), "0:00");
}

#[test]
fn convert_seconds_of_negative_follows_rust_division() {
    // -65 / 60 == -1 and -65 % 60 == -5 in Rust; "-5" is under ten.
    assert_eq!(convert_seconds(-65), "-1:0-5");
}

#[test]
fn convert_to_text_time_plurals() {
    assert_eq!(convert_to_text_time(3600 + 120), "1 hour, 2 minutes");
    assert_eq!(convert_to_text_time(7200 + 60), "2 hours, 1 minute");
    assert_eq!(convert_to_text_time(59), "0 hour, 0 minute");
    assert_eq!(convert_to_text_time(3 * 3600 + 59 * 60 + 59), "3 hours, 59 minutes");
}

#[test]
fn total_duration_sums_songs() {
    let songs = vec![song_of_length(100), song_of_length(200), song_of_length(45)];
    assert_eq!(total_duration(&songs), 345);
    assert_eq!(total_duration(&[]), 0);
}

#[test]
fn clock_renders_minutes_and_seconds() {
    assert_eq!(clock(65), "1:05");
    assert_eq!(clock(600), "10:00");
    assert_eq!(clock(0), "0:00");
    assert_eq!(clock(3599), "59:59");
    // format!("{}:{:02}", -5 / 60, -5 % 60) is "0:-5".
    assert_eq!(clock(-5), "0:-5");
}

#[test]
fn play_duration_shows_elapsed_and_total() {
    assert_eq!(play_duration(65, 200), "1:05 / 3:20");
    assert_eq!(play_duration(0, 0), "0:00 / 0:00");
}

#[test]
fn texts_compared_by_characters() {
    assert!(same_text("", ""));
    assert!(same_text("héllo", "héllo"));
    assert!(!same_text("hello", "hellO"));
    assert!(!same_text("hell", "hello"));
}

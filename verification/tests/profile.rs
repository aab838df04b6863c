use libretunes::models::backend::{Artist, User};
use libretunes::profile::{
    check_friend_request, check_picture_field, date_of, friend_entries, friend_link, friend_since, history_start,
    menu_picture, picture_file, release_suffix, top_artist_entries, user_details, FriendError, PictureError, HISTORY_MICROS,
    MICROS_PER_DAY,
};

const MARCH_5_2024_NOON: i64 = 1_709_640_000_000_000;

fn user(id: Option<i32>, name: &str, created_at: Option<i64>, admin: bool) -> User {
    User {
        id,
        username: name.to_string(),
        email: format!("{}@example.com", name),
        password: None,
        created_at,
        admin,
    }
}

#[test]
fn date_of_points_in_time() {
    assert_eq!(date_of(0), 719_163);
    assert_eq!(date_of(MICROS_PER_DAY - 1), 719_163);
    assert_eq!(date_of(MICROS_PER_DAY), 719_164);
    assert_eq!(date_of(-1), 719_162);
    assert_eq!(date_of(-MICROS_PER_DAY), 719_162);
    assert_eq!(date_of(-MICROS_PER_DAY - 1), 719_161);
    assert_eq!(date_of(MARCH_5_2024_NOON), 738_950);
    assert_eq!(date_of(i64::MAX), 719_163 + 106_751_991);
    assert_eq!(date_of(i64::MIN), 719_163 - 106_751_992);
}

#[test]
fn friend_entries_from_rows() {
    let rows = vec![
        (user(Some(4), "bob", None, false), MARCH_5_2024_NOON),
        (user(Some(9), "cy", None, false), 0),
    ];
    let out = friend_entries(&rows);
    assert_eq!(out.len(), 2);
    assert_eq!(out[0].username, "bob");
    assert_eq!(out[0].created_at, 738_950);
    assert_eq!(out[0].user_id, 4);
    assert_eq!(out[1].username, "cy");
    assert_eq!(out[1].created_at, 719_163);
    assert_eq!(out[1].user_id, 9);
}

#[test]
fn friend_row_texts() {
    assert_eq!(friend_link(4), "user/4");
    assert_eq!(friend_since(738_950), Some("03/05/2024".to_string()));
    assert_eq!(friend_since(719_163), Some("01/01/1970".to_string()));
    assert_eq!(friend_since(i32::MAX), None);
}

#[test]
fn accepting_friend_request_needs_request() {
    assert!(check_friend_request(true).is_ok());
    assert_eq!(check_friend_request(false).unwrap_err(), FriendError::RequestMissing);
    assert_eq!(FriendError::RequestMissing.message(), "Error, the friend request does not exist!");
}

#[test]
fn details_line_of_profile() {
    assert_eq!(
        user_details(&user(Some(1), "ada", Some(MARCH_5_2024_NOON), true)),
        "ada@example.com • Joined March 2024 • Admin"
    );
    assert_eq!(user_details(&user(Some(1), "ada", Some(0), false)), "ada@example.com • Joined January 1970");
    assert_eq!(user_details(&user(Some(1), "ada", None, false)), "ada@example.com");
}

#[test]
fn top_artists_get_pictures() {
    let counts = vec![
        (12, Artist { id: Some(3), name: "Alpha".to_string() }),
        (2, Artist { id: Some(40), name: "Beta".to_string() }),
    ];
    let out = top_artist_entries(&counts);
    assert_eq!(out.len(), 2);
    assert_eq!(out[0].0, 12);
    assert_eq!(out[0].1.id, 3);
    assert_eq!(out[0].1.name, "Alpha");
    assert_eq!(out[0].1.image_path, "/assets/images/artists/3.webp");
    assert_eq!(out[1].1.image_path, "/assets/images/artists/40.webp");
}

#[test]
fn picture_upload_checks() {
    assert_eq!(check_picture_field(None).unwrap_err(), PictureError::NoField);
    assert_eq!(check_picture_field(Some(None)).unwrap_err(), PictureError::WrongField);
    assert_eq!(check_picture_field(Some(Some("photo"))).unwrap_err(), PictureError::WrongField);
    assert_eq!(check_picture_field(Some(Some("pictures"))).unwrap_err(), PictureError::WrongField);
    assert!(check_picture_field(Some(Some("picture"))).is_ok());
    assert_eq!(picture_file(Some(8)).unwrap(), "assets/images/profile/8.webp");
    assert_eq!(picture_file(None).unwrap_err(), PictureError::NoUserId);
    assert_eq!(PictureError::NoField.message(), "No field found");
    assert_eq!(PictureError::WrongField.message(), "Field name is not 'picture'");
    assert_eq!(PictureError::NoUserId.message(), "User has no id");
}

#[test]
fn account_menu_picture() {
    assert_eq!(menu_picture(Some(&user(Some(6), "ada", None, false))), Some("/assets/images/profile/6.webp".to_string()));
    assert_eq!(menu_picture(Some(&user(None, "ada", None, false))), None);
    assert_eq!(menu_picture(None), None);
}

#[test]
fn history_window_is_thirty_days() {
    assert_eq!(HISTORY_MICROS, 30 * 24 * 60 * 60 * 1_000_000);
    assert_eq!(history_start(MARCH_5_2024_NOON), MARCH_5_2024_NOON - HISTORY_MICROS);
}

#[test]
fn release_date_in_search_results() {
    assert_eq!(release_suffix(Some(738_950)), Some(" (2024-03-05)".to_string()));
    assert_eq!(release_suffix(None), Some(String::new()));
    assert_eq!(release_suffix(Some(i32::MIN)), None);
}

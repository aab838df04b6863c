use libretunes::pages::{
    artist_picture_path, artist_plays_label, duration_label, fetch_error_title, my_song_plays_label, not_found_page,
    own_profile, page_request, parse_id, plays_label, song_plays_label, user_picture_path, IdParseError, PageKind,
    PageRequest,
};
use libretunes::models::backend::User;

const SAMPLES: [&str; 22] = [
    "42", "+7", "007", "0", "-0", "-2147483648", "2147483647", "2147483648", "-2147483649", "", "-", "+", "12a",
    "99999999999a", "1a99999999999", " 1", "1 ", "+-1", "--1", "\u{0663}", "1\u{00e9}", "-99999999999",
];

#[test]
fn parse_id_agrees_with_std() {
    for s in SAMPLES {
        let std_result = s.parse::<i32>();
        match (parse_id(s), std_result) {
            (Ok(a), Ok(b)) => assert_eq!(a, b, "value of {:?}", s),
            (Err(a), Err(b)) => assert_eq!(a.message(), b.to_string(), "error of {:?}", s),
            (a, b) => panic!("{:?}: library {:?}, std {:?}", s, a, b),
        }
    }
}

#[test]
fn parse_id_errors() {
    assert_eq!(parse_id(""), Err(IdParseError::Empty));
    assert_eq!(parse_id("-"), Err(IdParseError::InvalidDigit));
    assert_eq!(parse_id("2147483648"), Err(IdParseError::PosOverflow));
    assert_eq!(parse_id("-2147483649"), Err(IdParseError::NegOverflow));
    assert_eq!(parse_id("99999999999a"), Err(IdParseError::PosOverflow));
    assert_eq!(parse_id("1a99999999999"), Err(IdParseError::InvalidDigit));
    assert_eq!(IdParseError::Empty.message(), "cannot parse integer from empty string");
    assert_eq!(IdParseError::InvalidDigit.message(), "invalid digit found in string");
    assert_eq!(IdParseError::PosOverflow.message(), "number too large to fit in target type");
    assert_eq!(IdParseError::NegOverflow.message(), "number too small to fit in target type");
}

#[test]
fn id_text_reads_back() {
    for v in [0, 1, -1, 42, -42, 1000, i32::MAX, i32::MIN] {
        assert_eq!(parse_id(&v.to_string()), Ok(v));
    }
}

#[test]
fn page_request_shows_item() {
    assert!(matches!(page_request(PageKind::Artist, Some("12")), PageRequest::Show(12)));
    assert!(matches!(page_request(PageKind::User, Some("3")), PageRequest::Show(3)));
}

#[test]
fn page_request_without_id() {
    assert!(matches!(page_request(PageKind::User, None), PageRequest::OwnProfile));
    match page_request(PageKind::Artist, None) {
        PageRequest::Refused(p) => {
            assert_eq!(p.title, "No Artist ID");
            assert_eq!(p.detail, "You must specify an artist ID to view their page.");
        },
        _ => panic!("expected an error page"),
    }
    match page_request(PageKind::Album, None) {
        PageRequest::Refused(p) => {
            assert_eq!(p.title, "No Album ID");
            assert_eq!(p.detail, "You must specify an album ID to view its page.");
        },
        _ => panic!("expected an error page"),
    }
    match page_request(PageKind::Song, None) {
        PageRequest::Refused(p) => {
            assert_eq!(p.title, "No Song ID");
            assert_eq!(p.detail, "You must specify a song ID to view its page.");
        },
        _ => panic!("expected an error page"),
    }
}

#[test]
fn page_request_with_bad_id() {
    match page_request(PageKind::Song, Some("abc")) {
        PageRequest::Refused(p) => {
            assert_eq!(p.title, "Invalid Song ID");
            assert_eq!(p.detail, "invalid digit found in string");
        },
        _ => panic!("expected an error page"),
    }
    match page_request(PageKind::User, Some("")) {
        PageRequest::Refused(p) => {
            assert_eq!(p.title, "Invalid User ID");
            assert_eq!(p.detail, "cannot parse integer from empty string");
        },
        _ => panic!("expected an error page"),
    }
}

#[test]
fn not_found_and_fetch_errors() {
    let p = not_found_page(PageKind::Album, 31);
    assert_eq!(p.title, "Album Not Found");
    assert_eq!(p.detail, "Album with ID 31 not found");
    let q = not_found_page(PageKind::User, -4);
    assert_eq!(q.title, "User Not Found");
    assert_eq!(q.detail, "User with ID -4 not found");
    assert_eq!(fetch_error_title(PageKind::Artist), "Error Getting Artist");
    assert_eq!(fetch_error_title(PageKind::Album), "Error Getting Album");
    assert_eq!(fetch_error_title(PageKind::Song), "Error Fetching Song");
    assert_eq!(fetch_error_title(PageKind::User), "Error Getting User");
}

#[test]
fn own_profile_needs_login() {
    let u = User {
        id: Some(6),
        username: "ada".to_string(),
        email: "a@b.c".to_string(),
        password: None,
        created_at: None,
        admin: false,
    };
    assert_eq!(own_profile(Some(&u)).unwrap(), 6);
    let e = own_profile(None).unwrap_err();
    assert_eq!(e.title, "Not Logged In");
    assert_eq!(e.detail, "You must be logged in to view your profile");
}

#[test]
fn picture_paths() {
    assert_eq!(user_picture_path(6), "/assets/images/profile/6.webp");
    assert_eq!(artist_picture_path(21), "/assets/images/artist/21.webp");
}

#[test]
fn play_count_labels() {
    assert_eq!(plays_label(1), "1 Play");
    assert_eq!(plays_label(0), "0 Plays");
    assert_eq!(plays_label(12), "12 Plays");
    assert_eq!(artist_plays_label(1), "1 play");
    assert_eq!(artist_plays_label(2), "2 plays");
    assert_eq!(song_plays_label(0), "Plays: 0");
    assert_eq!(my_song_plays_label(5), "My Plays: 5");
}

#[test]
fn duration_label_of_song() {
    assert_eq!(duration_label(185), "Duration: 3:05");
    assert_eq!(duration_label(60), "Duration: 1:00");
}

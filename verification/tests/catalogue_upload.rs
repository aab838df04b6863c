use libretunes::catalogue::{add_album, album_from_form, new_artist, AddAlbumError};
use libretunes::upload::{add_artist_id, artist_search_term, id_text, upload_error};

#[test]
fn new_artist_has_no_id() {
    let a = new_artist("Alpha".to_string());
    assert_eq!(a.id, None);
    assert_eq!(a.name, "Alpha");
}

#[test]
fn add_album_reads_trimmed_date() {
    let a = add_album("Record".to_string(), Some("  2024-03-05\n".to_string()), Some("/img/r.png".to_string()))
        .unwrap();
    assert_eq!(a.id, None);
    assert_eq!(a.title, "Record");
    assert_eq!(a.release_date, Some(738950));
    assert_eq!(a.image_path, Some("/img/r.png".to_string()));
}

#[test]
fn add_album_first_day_of_era() {
    let a = add_album("Old".to_string(), Some("0001-01-01".to_string()), None).unwrap();
    assert_eq!(a.release_date, Some(1));
    assert_eq!(a.image_path, None);
}

#[test]
fn add_album_without_date() {
    let a = add_album("Record".to_string(), None, Some(String::new())).unwrap();
    assert_eq!(a.release_date, None);
    assert_eq!(a.image_path, None);
}

#[test]
fn add_album_refuses_bad_dates() {
    assert_eq!(
        add_album("R".to_string(), Some("2024-13-01".to_string()), None).unwrap_err(),
        AddAlbumError::InvalidReleaseDate
    );
    assert_eq!(
        add_album("R".to_string(), Some("2023-02-29".to_string()), None).unwrap_err(),
        AddAlbumError::InvalidReleaseDate
    );
    assert_eq!(
        add_album("R".to_string(), Some("   ".to_string()), None).unwrap_err(),
        AddAlbumError::InvalidReleaseDate
    );
    assert_eq!(
        add_album("R".to_string(), Some("March 5".to_string()), None).unwrap_err(),
        AddAlbumError::InvalidReleaseDate
    );
    assert_eq!(AddAlbumError::InvalidReleaseDate.message(), "Invalid release date");
}

#[test]
fn album_from_form_after_reading() {
    let a = album_from_form("T".to_string(), Some(Some(42)), Some("x".to_string())).unwrap();
    assert_eq!(a.release_date, Some(42));
    assert_eq!(a.image_path, Some("x".to_string()));
    assert!(album_from_form("T".to_string(), Some(None), None).is_err());
}

#[test]
fn artist_search_uses_last_entry() {
    assert_eq!(artist_search_term("Alp"), "Alp");
    assert_eq!(artist_search_term("3,5,Be"), "Be");
    assert_eq!(artist_search_term("3,"), "");
    assert_eq!(artist_search_term(""), "");
}

#[test]
fn id_text_of_optional_id() {
    assert_eq!(id_text(Some(12)), "12");
    assert_eq!(id_text(Some(-3)), "-3");
    assert_eq!(id_text(None), "None");
}

#[test]
fn picking_an_artist_replaces_typed_entry() {
    assert_eq!(add_artist_id("Alp", Some(7)), "7,");
    assert_eq!(add_artist_id("3,5,Be", Some(8)), "3,5,8,");
    assert_eq!(add_artist_id("3,", None), "3,None,");
    assert_eq!(add_artist_id("", Some(1)), "1,");
}

#[test]
fn picking_leaves_empty_search() {
    let field = add_artist_id("3,Be", Some(4));
    assert_eq!(artist_search_term(&field), "");
    assert_eq!(add_artist_id(&field, Some(5)), "3,4,5,");
}

#[test]
fn upload_error_text() {
    assert_eq!(upload_error(true), None);
    assert_eq!(upload_error(false), Some("Error uploading song".to_string()));
}

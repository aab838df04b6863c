use libretunes::albumdata::AlbumData;
use libretunes::artistdata::ArtistData;
use libretunes::dashboard_tile::DashboardTile;
use libretunes::media_type::MediaType;
use libretunes::models::backend::Artist;
use libretunes::models::frontend;

fn artist(id: i32, name: &str) -> Artist {
    Artist { id: Some(id), name: name.to_string() }
}

#[test]
fn display_list_of_no_artist_is_empty() {
    assert_eq!(Artist::display_list(&[]), "");
}

#[test]
fn display_list_of_one_artist() {
    assert_eq!(Artist::display_list(&[artist(1, "Alpha")]), "Alpha");
}

#[test]
fn display_list_of_two_artists() {
    assert_eq!(Artist::display_list(&[artist(1, "Alpha"), artist(2, "Beta")]), "Alpha & Beta");
}

#[test]
fn display_list_of_three_artists() {
    let artists = [artist(1, "Alpha"), artist(2, "Beta"), artist(3, "Gamma")];
    assert_eq!(Artist::display_list(&artists), "Alpha, Beta, & Gamma");
}

#[test]
fn display_list_of_four_artists() {
    let artists = [artist(1, "A"), artist(2, "B"), artist(3, "C"), artist(4, "D")];
    assert_eq!(Artist::display_list(&artists), "A, B, C, & D");
}

#[test]
fn artist_data_presents_artist() {
    let data = ArtistData { id: 5, name: "Alpha".to_string(), image_path: "/img/a.png".to_string() };
    assert_eq!(data.image_path(), "/img/a.png");
    assert_eq!(data.title(), "Alpha");
    assert_eq!(data.link(), "/artist/5");
    assert_eq!(data.description(), Some("Artist".to_string()));
}

#[test]
fn album_data_presents_album() {
    let data = AlbumData {
        id: 7,
        title: "Record".to_string(),
        artists: vec![artist(1, "Alpha"), artist(2, "Beta")],
        release_date: None,
        image_path: "/img/r.png".to_string(),
    };
    assert_eq!(data.image_path(), "/img/r.png");
    assert_eq!(data.title(), "Record");
    assert_eq!(data.link(), "/album/7");
    assert_eq!(data.description(), Some("Album • Alpha & Beta".to_string()));
}

#[test]
fn tile_of_artist() {
    let a = frontend::Artist { id: 12, name: "Alpha".to_string(), image_path: "/img/a.png".to_string() };
    let tile: DashboardTile = a.into();
    assert_eq!(tile.image_path, "/img/a.png");
    assert_eq!(tile.title, "Alpha");
    assert_eq!(tile.link, "/artist/12");
    assert_eq!(tile.description, Some("Artist".to_string()));
}

#[test]
fn tile_of_album() {
    let a = frontend::Album {
        id: 3,
        title: "Record".to_string(),
        artists: vec![artist(1, "A"), artist(2, "B"), artist(3, "C")],
        release_date: Some(738950),
        image_path: "/img/r.png".to_string(),
    };
    let tile = DashboardTile::from_album(a);
    assert_eq!(tile.link, "/album/3");
    assert_eq!(tile.title, "Record");
    assert_eq!(tile.description, Some("Album • A, B, & C".to_string()));
}

#[test]
fn media_type_names() {
    assert_eq!(MediaType::Song.to_string(), "Song");
    assert_eq!(MediaType::Album.to_string(), "Album");
    assert_eq!(MediaType::Artist.to_string(), "Artist");
}

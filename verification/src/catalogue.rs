//! New catalogue entries, as the forms for adding artists and albums submit
//! them.

use vstd::prelude::*;
use crate::models::backend::{Album, Artist};

verus! {

/// Whether `c` is white space in the sense of Unicode's `White_Space`
/// property, which `char::is_whitespace` follows.
pub open spec fn is_white_space(c: char) -> bool {
    let n = c as u32;
    ||| 0x09 <= n <= 0x0D
    ||| n == 0x20
    ||| n == 0x85
    ||| n == 0xA0
    ||| n == 0x1680
    ||| 0x2000 <= n <= 0x200A
    ||| n == 0x2028
    ||| n == 0x2029
    ||| n == 0x202F
    ||| n == 0x205F
    ||| n == 0x3000
}

/// The number of white-space characters at the start of `s`.
pub open spec fn leading_space(s: Seq<char>) -> nat
    decreases s.len(),
{
    if s.len() > 0 && is_white_space(s[0]) {
        1 + leading_space(s.subrange(1, s.len() as int))
    } else {
        0
    }
}

/// The number of white-space characters at the end of `s`.
pub open spec fn trailing_space(s: Seq<char>) -> nat
    decreases s.len(),
{
    if s.len() > 0 && is_white_space(s[s.len() - 1]) {
        1 + trailing_space(s.subrange(0, s.len() - 1))
    } else {
        0
    }
}

/// `s` without its leading and trailing white space.
pub open spec fn trimmed(s: Seq<char>) -> Seq<char> {
    if leading_space(s) == s.len() {
        Seq::empty()
    } else {
        s.subrange(leading_space(s) as int, s.len() - trailing_space(s))
    }
}

/// The text with its leading and trailing white space removed.
///
/// Calls `str::trim`, which std documents as removing the leading and
/// trailing characters that have Unicode's `White_Space` property; the
/// contract states exactly that.
#[verifier::external_body]
fn trim_text(text: &str) -> (r: &str)
    ensures
        r@ == trimmed(text@),
{
    text.trim()
}

/// The day number, counted from the start of the common era (January 1 of
/// year 1 is day 1), of the date that `chrono::NaiveDate::parse_from_str`
/// reads from `text` in the format `format`; `None` where it refuses the
/// text.
pub uninterp spec fn parsed_date_day(text: Seq<char>, format: Seq<char>) -> Option<i32>;

/// Reads a calendar date from `text` in the given strftime-style format.
///
/// Calls `chrono::NaiveDate::parse_from_str` and turns the date it gives
/// into its day number with `chrono::Datelike::num_days_from_ce`. Which
/// texts chrono accepts and which date it reads is not stated: the result is
/// named by `parsed_date_day`, a function of the two texts alone.
#[verifier::external_body]
fn parse_date(text: &str, format: &str) -> (r: Option<i32>)
    ensures
        r == parsed_date_day(text@, format@),
{
    match chrono::NaiveDate::parse_from_str(text, format) {
        Ok(date) => Some(chrono::Datelike::num_days_from_ce(&date)),
        Err(_) => None,
    }
}

/// The format of a release date typed into the album form.
pub open spec fn release_date_format() -> Seq<char> {
    "%Y-%m-%d"@
}

/// Why a new album was refused.
#[derive(Clone, Copy, Debug, PartialEq, Eq, Structural)]
pub enum AddAlbumError {
    /// The release date is not a date in the form year-month-day.
    InvalidReleaseDate,
}

impl AddAlbumError {
    /// The message sent back to the client.
    pub fn message(&self) -> (s: String)
        ensures
            s@ == "Invalid release date"@,
    {
        String::from_str("Invalid release date")
    }
}

/// An album's image path as stored: an empty path means no image.
pub open spec fn stored_image_path(image_path: Option<Seq<char>>) -> Option<Seq<char>> {
    match image_path {
        Some(p) => if p.len() == 0 {
            None
        } else {
            Some(p)
        },
        None => None,
    }
}

/// The view of an optional string.
pub open spec fn opt_view(s: Option<String>) -> Option<Seq<char>> {
    match s {
        Some(t) => Some(t@),
        None => None,
    }
}

/// The artist that the artist form adds: not stored yet, so without an id.
pub fn new_artist(artist_name: String) -> (artist: Artist)
    ensures
        artist.id is None,
        artist.name@ == artist_name@,
{
    Artist { id: None, name: artist_name }
}

/// The album that the album form adds, once its release date has been read:
/// `release_date` is `None` when the form gave no date, and otherwise what
/// reading the (trimmed) date gave, itself `None` when the date was not
/// readable.
pub fn album_from_form(
    album_title: String,
    release_date: Option<Option<i32>>,
    image_path: Option<String>,
) -> (r: Result<Album, AddAlbumError>)
    ensures
        release_date == Some(None::<i32>) ==> r == Err::<Album, AddAlbumError>(
            AddAlbumError::InvalidReleaseDate,
        ),
        release_date != Some(None::<i32>) ==> r is Ok && r->Ok_0.id is None && r->Ok_0.title@
            == album_title@ && r->Ok_0.release_date == (match release_date {
            Some(d) => d,
            None => None,
        }) && opt_view(r->Ok_0.image_path) == stored_image_path(opt_view(image_path)),
{
    let date = match release_date {
        Some(Some(d)) => Some(d),
        Some(None) => {
            return Err(AddAlbumError::InvalidReleaseDate);
        },
        None => None,
    };
    let image = match image_path {
        Some(p) => {
            if p.as_str().unicode_len() == 0 {
                None
            } else {
                Some(p)
            }
        },
        None => None,
    };
    Ok(Album { id: None, title: album_title, release_date: date, image_path: image })
}

/// The album that the album form adds: its release date, when given, is
/// read in the form year-month-day after trimming white space, and an empty
/// image path means no image. Refused when the date cannot be read.
pub fn add_album(album_title: String, release_date: Option<String>, image_path: Option<String>) -> (r:
    Result<Album, AddAlbumError>)
    ensures
        ({
            let parsed = match release_date {
                Some(t) => Some(parsed_date_day(trimmed(t@), release_date_format())),
                None => None,
            };
            &&& parsed == Some(None::<i32>) ==> r == Err::<Album, AddAlbumError>(
                AddAlbumError::InvalidReleaseDate,
            )
            &&& parsed != Some(None::<i32>) ==> r is Ok && r->Ok_0.id is None
                && r->Ok_0.title@ == album_title@ && r->Ok_0.release_date == (match parsed {
                Some(d) => d,
                None => None,
            }) && opt_view(r->Ok_0.image_path) == stored_image_path(opt_view(image_path))
        }),
{
    let parsed = match &release_date {
        Some(t) => {
            let format = "%Y-%m-%d";
            proof {
                reveal_strlit("%Y-%m-%d");
            }
            Some(parse_date(trim_text(t.as_str()), format))
        },
        None => None,
    };
    album_from_form(album_title, parsed, image_path)
}

} // verus!

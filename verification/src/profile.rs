//! User profiles: the details line, the friend lists, the top artists, the
//! profile picture upload, and the window of listening history that the
//! profile's charts cover.

use vstd::prelude::*;
use crate::models::backend::{self, User};
use crate::models::frontend;
use crate::text::{decimal, int_to_string, same_text};
use crate::catalogue::opt_view;
use std::fmt::Write;

verus! {

/// Microseconds in a day.
pub const MICROS_PER_DAY: i64 = 86_400_000_000;

/// The day number of January 1, 1970, counted from the start of the common
/// era (January 1 of year 1 is day 1).
pub const UNIX_EPOCH_DAY: i32 = 719_163;

/// The calendar day (in UTC) of a point in time given in microseconds since
/// the Unix epoch, as a day number from the start of the common era.
pub open spec fn day_of(micros: int) -> int {
    micros / (MICROS_PER_DAY as int) + UNIX_EPOCH_DAY as int
}

/// The calendar day (in UTC) of a point in time.
pub fn date_of(micros: i64) -> (day: i32)
    ensures
        day == day_of(micros as int),
{
    let d = MICROS_PER_DAY;
    let q: i64 = if micros >= 0 {
        micros / d
    } else {
        -((-(micros + 1)) / d) - 1
    };
    proof {
        let m = micros as int;
        let dd = d as int;
        if m >= 0 {
            assert(dd * (m / dd) <= m < dd * (m / dd) + dd) by (nonlinear_arith)
                requires
                    m >= 0,
                    dd > 0,
            ;
            vstd::arithmetic::div_mod::lemma_fundamental_div_mod_converse(
                m,
                dd,
                q as int,
                m - (q as int) * dd,
            );
        } else {
            let c = -(m + 1);
            assert(dd * (c / dd) <= c < dd * (c / dd) + dd) by (nonlinear_arith)
                requires
                    c >= 0,
                    dd > 0,
            ;
            assert(0 <= c / dd <= c) by (nonlinear_arith)
                requires
                    c >= 0,
                    dd > 0,
            ;
            assert(q as int == -(c / dd) - 1);
            assert((q as int) * dd == -(dd * (c / dd)) - dd) by (nonlinear_arith)
                requires
                    q as int == -(c / dd) - 1,
            ;
            vstd::arithmetic::div_mod::lemma_fundamental_div_mod_converse(
                m,
                dd,
                q as int,
                m - (q as int) * dd,
            );
        }
        assert(-106751992 <= q <= 106751991) by (nonlinear_arith)
            requires
                q as int == m / dd,
                dd == 86_400_000_000,
                i64::MIN <= m <= i64::MAX,
        ;
    }
    (q + UNIX_EPOCH_DAY as i64) as i32
}

/// The text that `chrono::NaiveDate::format` gives for the date with day
/// number `day` (from the start of the common era) in the strftime-style
/// format `format`; `None` where chrono has no such date or cannot render
/// the format.
pub uninterp spec fn formatted_day(day: i32, format: Seq<char>) -> Option<Seq<char>>;

/// Renders a calendar date in a strftime-style format.
///
/// Calls `chrono::NaiveDate::from_num_days_from_ce_opt` to get the date and
/// writes `NaiveDate::format` into a string; a date out of chrono's range or
/// a format that chrono cannot render gives `None`. What the text is, is not
/// stated: it is named by `formatted_day`, a function of the day and the
/// format alone.
#[verifier::external_body]
fn format_day(day: i32, format: &str) -> (r: Option<String>)
    ensures
        opt_view(r) == formatted_day(day, format@),
{
    let date = chrono::NaiveDate::from_num_days_from_ce_opt(day)?;
    let mut text = String::new();
    match write!(text, "{}", date.format(format)) {
        Ok(()) => Some(text),
        Err(_) => None,
    }
}

/// One entry of a friend list.
#[derive(Clone, Debug)]
pub struct FriendData {
    /// The friend's username.
    pub username: String,
    /// The day the friendship (or the request) was made, as a day number
    /// from the start of the common era.
    pub created_at: i32,
    /// The friend's user id.
    pub user_id: i32,
}

/// The friend list from the rows of its query: each friend with the time
/// the friendship or request was made, in microseconds since the Unix
/// epoch. Every stored user has an id.
pub fn friend_entries(rows: &Vec<(User, i64)>) -> (out: Vec<FriendData>)
    requires
        forall|i: int| 0 <= i < rows@.len() ==> (#[trigger] rows@[i]).0.id is Some,
    ensures
        out@.len() == rows@.len(),
        forall|i: int|
            0 <= i < rows@.len() ==> {
                &&& (#[trigger] out@[i]).username@ == rows@[i].0.username@
                &&& out@[i].created_at == day_of(rows@[i].1 as int)
                &&& out@[i].user_id == rows@[i].0.id->0
            },
{
    let mut out: Vec<FriendData> = Vec::new();
    let mut i: usize = 0;
    while i < rows.len()
        invariant
            0 <= i <= rows@.len(),
            out@.len() == i,
            forall|j: int| 0 <= j < rows@.len() ==> (#[trigger] rows@[j]).0.id is Some,
            forall|j: int|
                0 <= j < i ==> {
                    &&& (#[trigger] out@[j]).username@ == rows@[j].0.username@
                    &&& out@[j].created_at == day_of(rows@[j].1 as int)
                    &&& out@[j].user_id == rows@[j].0.id->0
                },
        decreases rows@.len() - i,
    {
        let row = &rows[i];
        let entry = FriendData {
            username: row.0.username.clone(),
            created_at: date_of(row.1),
            user_id: row.0.id.unwrap(),
        };
        out.push(entry);
        i = i + 1;
    }
    out
}

/// The address of a friend's profile, relative to the friends page.
pub fn friend_link(user_id: i32) -> (s: String)
    ensures
        s@ == "user/"@ + decimal(user_id as int),
{
    let mut s = String::from_str("user/");
    let digits = int_to_string(user_id as i64);
    s.append(digits.as_str());
    s
}

/// The day shown beside a friend, month/day/year.
pub fn friend_since(created_at: i32) -> (s: Option<String>)
    ensures
        opt_view(s) == formatted_day(created_at, "%m/%d/%Y"@),
{
    format_day(created_at, "%m/%d/%Y")
}

/// The release date after an album's title in search results,
/// " (year-month-day)", or nothing when the album has no date. `None` when
/// chrono cannot render the date.
pub fn release_suffix(release_date: Option<i32>) -> (s: Option<String>)
    ensures
        release_date is None ==> s is Some && s->0@.len() == 0,
        release_date matches Some(d) ==> match formatted_day(d, "%Y-%m-%d"@) {
            Some(t) => s is Some && s->0@ == " ("@ + t + ")"@,
            None => s is None,
        },
{
    match release_date {
        None => Some(String::new()),
        Some(d) => match format_day(d, "%Y-%m-%d") {
            Some(t) => {
                let mut s = String::from_str(" (");
                s.append(t.as_str());
                s.append(")");
                Some(s)
            },
            None => None,
        },
    }
}

/// Why accepting a friend request failed.
#[derive(Clone, Copy, Debug, PartialEq, Eq, Structural)]
pub enum FriendError {
    /// There is no such friend request to accept.
    RequestMissing,
}

impl FriendError {
    /// The message sent back to the client.
    pub fn message(&self) -> (s: String)
        ensures
            s@ == "Error, the friend request does not exist!"@,
    {
        String::from_str("Error, the friend request does not exist!")
    }
}

/// A friend request can be accepted only when it exists.
pub fn check_friend_request(exists: bool) -> (r: Result<(), FriendError>)
    ensures
        exists ==> r is Ok,
        !exists ==> r == Err::<(), FriendError>(FriendError::RequestMissing),
{
    if exists {
        Ok(())
    } else {
        Err(FriendError::RequestMissing)
    }
}

/// The " • Joined ..." part of the details line, for a user created at the
/// given time: the month and year, when chrono can render that day.
pub open spec fn joined_text(created_at: Option<i64>) -> Seq<char> {
    match created_at {
        Some(t) => match formatted_day(day_of(t as int) as i32, "%B %Y"@) {
            Some(j) => " • Joined "@ + j,
            None => Seq::empty(),
        },
        None => Seq::empty(),
    }
}

/// The details line of a profile: the email, when the user joined, and
/// whether they are an admin.
pub fn user_details(user: &User) -> (s: String)
    ensures
        s@ == user.email@ + joined_text(user.created_at) + (if user.admin {
            " • Admin"@
        } else {
            Seq::empty()
        }),
{
    let mut s = user.email.clone();
    match user.created_at {
        Some(t) => {
            let day = date_of(t);
            match format_day(day, "%B %Y") {
                Some(month) => {
                    s.append(" • Joined ");
                    s.append(month.as_str());
                },
                None => {},
            }
        },
        None => {},
    }
    if user.admin {
        s.append(" • Admin");
    }
    s
}

/// The image of an artist in a user's top artists.
pub open spec fn top_artist_image(id: int) -> Seq<char> {
    "/assets/images/artists/"@ + decimal(id) + ".webp"@
}

/// A user's top artists as the profile shows them, from the play counts and
/// artists of the query. Every stored artist has an id.
pub fn top_artist_entries(counts: &Vec<(i64, backend::Artist)>) -> (out: Vec<(i64, frontend::Artist)>)
    requires
        forall|i: int| 0 <= i < counts@.len() ==> (#[trigger] counts@[i]).1.id is Some,
    ensures
        out@.len() == counts@.len(),
        forall|i: int|
            0 <= i < counts@.len() ==> {
                &&& (#[trigger] out@[i]).0 == counts@[i].0
                &&& out@[i].1.id == counts@[i].1.id->0
                &&& out@[i].1.name@ == counts@[i].1.name@
                &&& out@[i].1.image_path@ == top_artist_image(counts@[i].1.id->0 as int)
            },
{
    let mut out: Vec<(i64, frontend::Artist)> = Vec::new();
    let mut i: usize = 0;
    while i < counts.len()
        invariant
            0 <= i <= counts@.len(),
            out@.len() == i,
            forall|j: int| 0 <= j < counts@.len() ==> (#[trigger] counts@[j]).1.id is Some,
            forall|j: int|
                0 <= j < i ==> {
                    &&& (#[trigger] out@[j]).0 == counts@[j].0
                    &&& out@[j].1.id == counts@[j].1.id->0
                    &&& out@[j].1.name@ == counts@[j].1.name@
                    &&& out@[j].1.image_path@ == top_artist_image(counts@[j].1.id->0 as int)
                },
        decreases counts@.len() - i,
    {
        let (plays, artist) = (counts[i].0, &counts[i].1);
        let id = artist.id.unwrap();
        let mut image = String::from_str("/assets/images/artists/");
        let digits = int_to_string(id as i64);
        image.append(digits.as_str());
        image.append(".webp");
        out.push((plays, frontend::Artist { id, name: artist.name.clone(), image_path: image }));
        i = i + 1;
    }
    out
}

/// Why a profile picture upload was refused.
#[derive(Clone, Copy, Debug, PartialEq, Eq, Structural)]
pub enum PictureError {
    /// The upload holds no field.
    NoField,
    /// The upload's field is not named "picture".
    WrongField,
    /// The logged-in user has no id.
    NoUserId,
}

/// The message of each refusal.
pub open spec fn picture_error_text(e: PictureError) -> Seq<char> {
    match e {
        PictureError::NoField => "No field found"@,
        PictureError::WrongField => "Field name is not 'picture'"@,
        PictureError::NoUserId => "User has no id"@,
    }
}

impl PictureError {
    /// The message sent back to the client.
    pub fn message(&self) -> (s: String)
        ensures
            s@ == picture_error_text(*self),
    {
        match self {
            PictureError::NoField => String::from_str("No field found"),
            PictureError::WrongField => String::from_str("Field name is not 'picture'"),
            PictureError::NoUserId => String::from_str("User has no id"),
        }
    }
}

/// Checks the field of a profile picture upload: `None` when the upload has
/// no field, otherwise the field's name (itself optional).
pub fn check_picture_field(field_name: Option<Option<&str>>) -> (r: Result<(), PictureError>)
    ensures
        field_name is None ==> r == Err::<(), PictureError>(PictureError::NoField),
        field_name is Some ==> (field_name->0 is Some && field_name->0->0@ == "picture"@ ==> r is Ok),
        field_name is Some ==> (!(field_name->0 is Some && field_name->0->0@ == "picture"@) ==> r
            == Err::<(), PictureError>(PictureError::WrongField)),
{
    match field_name {
        None => Err(PictureError::NoField),
        Some(None) => Err(PictureError::WrongField),
        Some(Some(name)) => {
            if same_text(name, "picture") {
                Ok(())
            } else {
                Err(PictureError::WrongField)
            }
        },
    }
}

/// The file that a user's profile picture is written to, relative to the
/// server's working directory.
pub fn picture_file(user_id: Option<i32>) -> (r: Result<String, PictureError>)
    ensures
        user_id is None ==> r == Err::<String, PictureError>(PictureError::NoUserId),
        user_id is Some ==> (r matches Ok(s) && s@ == "assets/images/profile/"@ + decimal(
            user_id->0 as int,
        ) + ".webp"@),
{
    match user_id {
        None => Err(PictureError::NoUserId),
        Some(id) => {
            let mut s = String::from_str("assets/images/profile/");
            let digits = int_to_string(id as i64);
            s.append(digits.as_str());
            s.append(".webp");
            Ok(s)
        },
    }
}

/// The picture of the account menu: the logged-in user's profile picture,
/// or none when nobody (or a user without an id) is logged in.
pub fn menu_picture(user: Option<&User>) -> (s: Option<String>)
    ensures
        match user {
            Some(u) => match u.id {
                Some(id) => s is Some && s->0@ == "/assets/images/profile/"@ + decimal(id as int)
                    + ".webp"@,
                None => s is None,
            },
            None => s is None,
        },
{
    match user {
        Some(u) => match u.id {
            Some(id) => Some(crate::pages::user_picture_path(id)),
            None => None,
        },
        None => None,
    }
}

/// The span of listening history that the profile's charts cover: thirty
/// days, in microseconds.
pub const HISTORY_MICROS: i64 = 2_592_000_000_000;

/// The start of the span of listening history that ends now.
pub fn history_start(now: i64) -> (start: i64)
    requires
        now >= i64::MIN + HISTORY_MICROS,
    ensures
        start == now - HISTORY_MICROS,
{
    now - HISTORY_MICROS
}

} // verus!

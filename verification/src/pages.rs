//! The pages of single artists, albums, songs and users: how the id in the
//! page's address is read, and what the page shows when it cannot show the
//! item.

use vstd::prelude::*;
use crate::models::backend::User;
use crate::text::{decimal, digit_char, digits, int_to_string};
use crate::durations::{clock, clock_text};

verus! {

/// The kind of item that a page shows.
#[derive(Clone, Copy, Debug, PartialEq, Eq, Structural)]
pub enum PageKind {
    Artist,
    Album,
    Song,
    User,
}

/// Why the id in a page's address is not a number, as std's integer parser
/// tells it.
#[derive(Clone, Copy, Debug, PartialEq, Eq, Structural)]
pub enum IdParseError {
    /// The id is empty.
    Empty,
    /// The id holds a character that is not a digit (a lone sign included).
    InvalidDigit,
    /// The id is above the largest `i32`.
    PosOverflow,
    /// The id is below the smallest `i32`.
    NegOverflow,
}

/// The text that std's integer parser gives for each error.
pub open spec fn id_error_text(e: IdParseError) -> Seq<char> {
    match e {
        IdParseError::Empty => "cannot parse integer from empty string"@,
        IdParseError::InvalidDigit => "invalid digit found in string"@,
        IdParseError::PosOverflow => "number too large to fit in target type"@,
        IdParseError::NegOverflow => "number too small to fit in target type"@,
    }
}

impl IdParseError {
    /// The error's text.
    pub fn message(&self) -> (s: String)
        ensures
            s@ == id_error_text(*self),
    {
        match self {
            IdParseError::Empty => String::from_str("cannot parse integer from empty string"),
            IdParseError::InvalidDigit => String::from_str("invalid digit found in string"),
            IdParseError::PosOverflow => String::from_str("number too large to fit in target type"),
            IdParseError::NegOverflow => String::from_str("number too small to fit in target type"),
        }
    }
}

/// Whether `c` is a decimal digit.
pub open spec fn is_digit(c: char) -> bool {
    '0' <= c && c <= '9'
}

/// The value of a decimal digit.
pub open spec fn digit_value(c: char) -> int {
    c as int - '0' as int
}

/// Reading the first `n` characters of the digits of a number, left to
/// right, as std's integer parser does: the value so far (negative for a
/// negative number), or the first error met.
pub open spec fn read_digits(body: Seq<char>, negative: bool, n: int) -> Result<int, IdParseError>
    decreases n,
{
    if n <= 0 {
        Ok(0)
    } else {
        match read_digits(body, negative, n - 1) {
            Err(e) => Err(e),
            Ok(v) => if !is_digit(body[n - 1]) {
                Err(IdParseError::InvalidDigit)
            } else if negative {
                if v * 10 - digit_value(body[n - 1]) < i32::MIN {
                    Err(IdParseError::NegOverflow)
                } else {
                    Ok(v * 10 - digit_value(body[n - 1]))
                }
            } else {
                if v * 10 + digit_value(body[n - 1]) > i32::MAX {
                    Err(IdParseError::PosOverflow)
                } else {
                    Ok(v * 10 + digit_value(body[n - 1]))
                }
            },
        }
    }
}

/// What reading `s` as an `i32` gives: an optional '+' or '-' sign, then
/// decimal digits, and nothing else.
pub open spec fn id_parse(s: Seq<char>) -> Result<int, IdParseError> {
    if s.len() == 0 {
        Err(IdParseError::Empty)
    } else if (s[0] == '+' || s[0] == '-') && s.len() == 1 {
        Err(IdParseError::InvalidDigit)
    } else if s[0] == '+' {
        read_digits(s.subrange(1, s.len() as int), false, s.len() - 1)
    } else if s[0] == '-' {
        read_digits(s.subrange(1, s.len() as int), true, s.len() - 1)
    } else {
        read_digits(s, false, s.len() as int)
    }
}

proof fn lemma_read_digits_range(body: Seq<char>, negative: bool, n: int)
    ensures
        read_digits(body, negative, n) is Ok ==> i32::MIN <= read_digits(body, negative, n)->Ok_0
            <= i32::MAX,
        read_digits(body, negative, n) is Ok && negative ==> read_digits(body, negative, n)->Ok_0
            <= 0,
        read_digits(body, negative, n) is Ok && !negative ==> read_digits(body, negative, n)->Ok_0
            >= 0,
    decreases n,
{
    if n > 0 {
        lemma_read_digits_range(body, negative, n - 1);
    }
}

/// Reads the id in a page's address as std's `str::parse::<i32>` does.
pub fn parse_id(text: &str) -> (r: Result<i32, IdParseError>)
    ensures
        match r {
            Ok(v) => id_parse(text@) == Ok::<int, IdParseError>(v as int),
            Err(e) => id_parse(text@) == Err::<int, IdParseError>(e),
        },
{
    let n = text.unicode_len();
    if n == 0 {
        return Err(IdParseError::Empty);
    }
    let first = text.get_char(0);
    if (first == '+' || first == '-') && n == 1 {
        return Err(IdParseError::InvalidDigit);
    }
    let negative = first == '-';
    let start: usize = if first == '+' || first == '-' {
        1
    } else {
        0
    };
    let ghost body = text@.subrange(start as int, n as int);
    assert(start == 0 ==> body =~= text@);
    assert(id_parse(text@) == read_digits(body, negative, n - start));
    let mut v: i64 = 0;
    let mut j: usize = start;
    while j < n
        invariant
            n == text@.len(),
            start <= j <= n,
            start <= 1,
            body == text@.subrange(start as int, n as int),
            id_parse(text@) == read_digits(body, negative, n - start),
            read_digits(body, negative, j - start) == Ok::<int, IdParseError>(v as int),
            i32::MIN <= v <= i32::MAX,
        decreases n - j,
    {
        let c = text.get_char(j);
        assert(body[j - start] == c);
        proof {
            lemma_read_digits_range(body, negative, (j - start) as int);
        }
        if c < '0' || c > '9' {
            assert(read_digits(body, negative, j + 1 - start) == Err::<int, IdParseError>(
                IdParseError::InvalidDigit,
            ));
            proof {
                lemma_read_digits_prefix(body, negative, j + 1 - start, n - start);
            }
            return Err(IdParseError::InvalidDigit);
        }
        let d: i64 = (c as u32 - '0' as u32) as i64;
        if negative {
            let w = v * 10 - d;
            if w < -2147483648 {
                proof {
                    lemma_read_digits_prefix(body, negative, j + 1 - start, n - start);
                }
                return Err(IdParseError::NegOverflow);
            }
            v = w;
        } else {
            let w = v * 10 + d;
            if w > 2147483647 {
                proof {
                    lemma_read_digits_prefix(body, negative, j + 1 - start, n - start);
                }
                return Err(IdParseError::PosOverflow);
            }
            v = w;
        }
        j = j + 1;
    }
    Ok(v as i32)
}

/// An error met while reading some first characters stays the outcome of
/// reading more of them.
proof fn lemma_read_digits_prefix(body: Seq<char>, negative: bool, k: int, n: int)
    requires
        0 <= k <= n,
        read_digits(body, negative, k) is Err,
    ensures
        read_digits(body, negative, n) == read_digits(body, negative, k),
    decreases n - k,
{
    if k < n {
        lemma_read_digits_prefix(body, negative, k, n - 1);
    }
}

/// Reading the first `k` characters does not look past them.
proof fn lemma_read_digits_push(s: Seq<char>, c: char, negative: bool, k: int)
    requires
        0 <= k <= s.len(),
    ensures
        read_digits(s.push(c), negative, k) == read_digits(s, negative, k),
    decreases k,
{
    if k > 0 {
        lemma_read_digits_push(s, c, negative, k - 1);
        assert(s.push(c)[k - 1] == s[k - 1]);
    }
}

proof fn lemma_digit_char(d: int)
    requires
        0 <= d <= 9,
    ensures
        is_digit(digit_char(d)),
        digit_value(digit_char(d)) == d,
{
    assert(((48 + d) as u32) as int == 48 + d);
    assert(digit_char(d) as int == 48 + d);
}

proof fn lemma_digits_not_empty(n: nat)
    ensures
        digits(n).len() >= 1,
        is_digit(digits(n)[0]),
    decreases n,
{
    if n < 10 {
        lemma_digit_char(n as int);
    } else {
        lemma_digits_not_empty(n / 10);
        assert(digits(n)[0] == digits(n / 10)[0]);
    }
}

/// Reading the decimal digits of `n` gives `n` back (negated when the
/// number is negative), when it is within the range of an `i32`.
proof fn lemma_read_own_digits(n: nat, negative: bool)
    requires
        !negative ==> n <= i32::MAX,
        negative ==> n <= -(i32::MIN as int),
    ensures
        read_digits(digits(n), negative, digits(n).len() as int) == Ok::<int, IdParseError>(
            if negative {
                -(n as int)
            } else {
                n as int
            },
        ),
    decreases n,
{
    lemma_digits_not_empty(n);
    if n < 10 {
        lemma_digit_char(n as int);
        assert(read_digits(digits(n), negative, 0) == Ok::<int, IdParseError>(0));
    } else {
        let m = n / 10;
        let d = (n % 10) as int;
        lemma_read_own_digits(m, negative);
        lemma_digit_char(d);
        let pre = digits(m);
        assert(digits(n) == pre.push(digit_char(d)));
        lemma_read_digits_push(pre, digit_char(d), negative, pre.len() as int);
        assert(m * 10 + d == n);
    }
}

/// The id in a page's address reads back as the id that the address was
/// made from: reading the decimal text of any `i32` gives that `i32`.
pub proof fn law_id_text_reads_back(id: i32)
    ensures
        id_parse(decimal(id as int)) == Ok::<int, IdParseError>(id as int),
{
    if id >= 0 {
        lemma_read_own_digits(id as nat, false);
        lemma_digits_not_empty(id as nat);
        let s = digits(id as nat);
        assert(s[0] != '+' && s[0] != '-');
    } else {
        let m = (-(id as int)) as nat;
        lemma_read_own_digits(m, true);
        lemma_digits_not_empty(m);
        let s = seq!['-'] + digits(m);
        assert(s.subrange(1, s.len() as int) =~= digits(m));
    }
}

/// A page that shows an error in place of the item.
#[derive(Clone, Debug)]
pub struct ErrorPage {
    /// The heading of the error.
    pub title: String,
    /// What went wrong.
    pub detail: String,
}

/// What a page does with the id in its address.
#[derive(Clone, Debug)]
pub enum PageRequest {
    /// Show the item with this id.
    Show(i32),
    /// Show the logged-in user's own profile.
    OwnProfile,
    /// Show an error.
    Refused(ErrorPage),
}

/// The noun of a page kind, as the page's messages name it.
pub open spec fn kind_noun(kind: PageKind) -> Seq<char> {
    match kind {
        PageKind::Artist => "Artist"@,
        PageKind::Album => "Album"@,
        PageKind::Song => "Song"@,
        PageKind::User => "User"@,
    }
}

/// The message of a page whose address gives no id. The profile page never
/// shows it: without an id, it shows the user's own profile.
pub open spec fn missing_id_text(kind: PageKind) -> Seq<char> {
    match kind {
        PageKind::Artist => "You must specify an artist ID to view their page."@,
        PageKind::Album => "You must specify an album ID to view its page."@,
        PageKind::Song => "You must specify a song ID to view its page."@,
        PageKind::User => "You must specify a user ID to view their page."@,
    }
}

/// The heading of the error shown when fetching the item failed.
pub open spec fn fetch_error_text(kind: PageKind) -> Seq<char> {
    match kind {
        PageKind::Artist => "Error Getting Artist"@,
        PageKind::Album => "Error Getting Album"@,
        PageKind::Song => "Error Fetching Song"@,
        PageKind::User => "Error Getting User"@,
    }
}

fn kind_noun_str(kind: PageKind) -> (s: &'static str)
    ensures
        s@ == kind_noun(kind),
{
    match kind {
        PageKind::Artist => "Artist",
        PageKind::Album => "Album",
        PageKind::Song => "Song",
        PageKind::User => "User",
    }
}

/// The message of a page whose address gives no id.
fn missing_id_message(kind: PageKind) -> (s: String)
    ensures
        s@ == missing_id_text(kind),
{
    match kind {
        PageKind::Artist => String::from_str("You must specify an artist ID to view their page."),
        PageKind::Album => String::from_str("You must specify an album ID to view its page."),
        PageKind::Song => String::from_str("You must specify a song ID to view its page."),
        PageKind::User => String::from_str("You must specify a user ID to view their page."),
    }
}

/// What a page does with the id in its address (`None` when the address
/// has none): shows the item when the id reads as an `i32`, shows the
/// user's own profile when the profile page has no id, and otherwise shows
/// an error.
pub fn page_request(kind: PageKind, id_param: Option<&str>) -> (r: PageRequest)
    ensures
        id_param is None && kind == PageKind::User ==> r is OwnProfile,
        id_param is None && kind != PageKind::User ==> (r matches PageRequest::Refused(p)
            && p.title@ == "No "@ + kind_noun(kind) + " ID"@ && p.detail@ == missing_id_text(
            kind,
        )),
        id_param is Some ==> match id_parse(id_param->0@) {
            Ok(v) => r == PageRequest::Show(v as i32),
            Err(e) => r matches PageRequest::Refused(p) && p.title@ == "Invalid "@ + kind_noun(
                kind,
            ) + " ID"@ && p.detail@ == id_error_text(e),
        },
{
    match id_param {
        None => {
            if kind == PageKind::User {
                PageRequest::OwnProfile
            } else {
                let mut title = String::from_str("No ");
                title.append(kind_noun_str(kind));
                title.append(" ID");
                PageRequest::Refused(ErrorPage { title, detail: missing_id_message(kind) })
            }
        },
        Some(text) => match parse_id(text) {
            Ok(id) => PageRequest::Show(id),
            Err(e) => {
                let mut title = String::from_str("Invalid ");
                title.append(kind_noun_str(kind));
                title.append(" ID");
                PageRequest::Refused(ErrorPage { title, detail: e.message() })
            },
        },
    }
}

/// The error shown when no item has the page's id.
pub fn not_found_page(kind: PageKind, id: i32) -> (p: ErrorPage)
    ensures
        p.title@ == kind_noun(kind) + " Not Found"@,
        p.detail@ == kind_noun(kind) + " with ID "@ + decimal(id as int) + " not found"@,
{
    let mut title = String::from_str(kind_noun_str(kind));
    title.append(" Not Found");
    let mut detail = String::from_str(kind_noun_str(kind));
    detail.append(" with ID ");
    let digits = int_to_string(id as i64);
    detail.append(digits.as_str());
    detail.append(" not found");
    ErrorPage { title, detail }
}

/// The heading of the error shown when fetching the item failed.
pub fn fetch_error_title(kind: PageKind) -> (s: String)
    ensures
        s@ == fetch_error_text(kind),
{
    match kind {
        PageKind::Artist => String::from_str("Error Getting Artist"),
        PageKind::Album => String::from_str("Error Getting Album"),
        PageKind::Song => String::from_str("Error Fetching Song"),
        PageKind::User => String::from_str("Error Getting User"),
    }
}

/// The user's own profile page: the id of the logged-in user, or the error
/// shown when nobody is logged in.
pub fn own_profile(user: Option<&User>) -> (r: Result<i32, ErrorPage>)
    requires
        user is Some ==> user->0.id is Some,
    ensures
        user is Some ==> r == Ok::<i32, ErrorPage>(user->0.id->0),
        user is None ==> (r matches Err(p) && p.title@ == "Not Logged In"@ && p.detail@
            == "You must be logged in to view your profile"@),
{
    match user {
        Some(u) => Ok(u.id.unwrap()),
        None => Err(
            ErrorPage {
                title: String::from_str("Not Logged In"),
                detail: String::from_str("You must be logged in to view your profile"),
            },
        ),
    }
}

/// The address of a user's profile picture.
pub fn user_picture_path(user_id: i32) -> (s: String)
    ensures
        s@ == "/assets/images/profile/"@ + decimal(user_id as int) + ".webp"@,
{
    let mut s = String::from_str("/assets/images/profile/");
    let digits = int_to_string(user_id as i64);
    s.append(digits.as_str());
    s.append(".webp");
    s
}

/// The address of the picture on an artist's page.
pub fn artist_picture_path(artist_id: i32) -> (s: String)
    ensures
        s@ == "/assets/images/artist/"@ + decimal(artist_id as int) + ".webp"@,
{
    let mut s = String::from_str("/assets/images/artist/");
    let digits = int_to_string(artist_id as i64);
    s.append(digits.as_str());
    s.append(".webp");
    s
}

/// A play count with its word: "1 Play" for one, "n Plays" otherwise.
pub fn plays_label(plays: i64) -> (s: String)
    ensures
        plays == 1 ==> s@ == "1 Play"@,
        plays != 1 ==> s@ == decimal(plays as int) + " Plays"@,
{
    let mut s = int_to_string(plays);
    if plays == 1 {
        s.append(" Play");
        proof {
            reveal_strlit("1 Play");
            reveal_strlit(" Play");
            assert(decimal(1) =~= seq!['1']);
        }
        assert(s@ =~= "1 Play"@);
    } else {
        s.append(" Plays");
    }
    s
}

/// A play count on an artist's page: "1 play" for one, "n plays" otherwise.
pub fn artist_plays_label(plays: i64) -> (s: String)
    ensures
        plays == 1 ==> s@ == "1 play"@,
        plays != 1 ==> s@ == decimal(plays as int) + " plays"@,
{
    if plays == 1 {
        String::from_str("1 play")
    } else {
        let mut s = int_to_string(plays);
        s.append(" plays");
        s
    }
}

/// The total play count on a song's page.
pub fn song_plays_label(plays: i64) -> (s: String)
    ensures
        s@ == "Plays: "@ + decimal(plays as int),
{
    let mut s = String::from_str("Plays: ");
    let digits = int_to_string(plays);
    s.append(digits.as_str());
    s
}

/// The logged-in user's play count on a song's page.
pub fn my_song_plays_label(plays: i64) -> (s: String)
    ensures
        s@ == "My Plays: "@ + decimal(plays as int),
{
    let mut s = String::from_str("My Plays: ");
    let digits = int_to_string(plays);
    s.append(digits.as_str());
    s
}

/// A song's duration on its page: "Duration: m:ss".
pub fn duration_label(duration: i32) -> (s: String)
    ensures
        s@ == "Duration: "@ + clock_text(duration as int),
{
    let mut s = String::from_str("Duration: ");
    let t = clock(duration as i64);
    s.append(t.as_str());
    s
}

} // verus!

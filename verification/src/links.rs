//! The artists and album of a song in a song list, as links to their pages.

use vstd::prelude::*;
use crate::models::backend::{Album, Artist};
use crate::text::{decimal, int_to_string};

verus! {

/// A name shown in a song list: a link to its page when it has an id, and
/// the text that follows it.
#[derive(Clone, Debug)]
pub struct NameLink {
    /// The name shown.
    pub text: String,
    /// The page the name leads to, if any.
    pub link: Option<String>,
    /// What follows the name.
    pub separator: String,
}

/// What follows the `i`-th of `n` artists of a song: ", " before all but
/// the last two, " & " between the last two, and nothing after the last.
pub open spec fn artist_separator(i: int, n: int) -> Seq<char> {
    if i < n - 2 {
        ", "@
    } else if i == n - 2 {
        " & "@
    } else {
        Seq::empty()
    }
}

/// The page of an item with an optional id under a path prefix.
pub open spec fn page_link(prefix: Seq<char>, id: Option<i32>) -> Option<Seq<char>> {
    match id {
        Some(v) => Some(prefix + decimal(v as int)),
        None => None,
    }
}

/// The view of an optional string.
pub open spec fn link_view(s: Option<String>) -> Option<Seq<char>> {
    match s {
        Some(t) => Some(t@),
        None => None,
    }
}

fn page_address(prefix: &str, id: Option<i32>) -> (r: Option<String>)
    ensures
        link_view(r) == page_link(prefix@, id),
{
    match id {
        Some(v) => {
            let mut s = String::from_str(prefix);
            let digits = int_to_string(v as i64);
            s.append(digits.as_str());
            Some(s)
        },
        None => None,
    }
}

/// The artists of a song in a song list: each name, linked to the artist's
/// page when the artist has an id, and followed by its separator.
pub fn artist_links(artists: &[Artist]) -> (out: Vec<NameLink>)
    ensures
        out@.len() == artists@.len(),
        forall|i: int|
            0 <= i < artists@.len() ==> {
                &&& (#[trigger] out@[i]).text@ == artists@[i].name@
                &&& link_view(out@[i].link) == page_link("/artist/"@, artists@[i].id)
                &&& out@[i].separator@ == artist_separator(i, artists@.len() as int)
            },
        forall|i: int|
            0 <= i < artists@.len() ==> {
                let n = artists@.len() as int;
                &&& i == n - 1 ==> (#[trigger] out@[i]).separator@.len() == 0
                &&& i == n - 2 ==> out@[i].separator@ == " & "@
                &&& i < n - 2 ==> out@[i].separator@ == ", "@
            },
{
    let n = artists.len();
    let mut out: Vec<NameLink> = Vec::new();
    let mut i: usize = 0;
    while i < n
        invariant
            n == artists@.len(),
            0 <= i <= n,
            out@.len() == i,
            forall|j: int|
                0 <= j < i ==> {
                    &&& (#[trigger] out@[j]).text@ == artists@[j].name@
                    &&& link_view(out@[j].link) == page_link("/artist/"@, artists@[j].id)
                    &&& out@[j].separator@ == artist_separator(j, n as int)
                },
        decreases n - i,
    {
        let separator = if n >= 2 && i < n - 2 {
            String::from_str(", ")
        } else if n >= 2 && i == n - 2 {
            String::from_str(" & ")
        } else {
            String::new()
        };
        let link = page_address("/artist/", artists[i].id);
        out.push(NameLink { text: artists[i].name.clone(), link, separator });
        i = i + 1;
    }
    out
}

/// The album of a song in a song list, linked to its page when it has an
/// id; nothing when the song has no album.
pub fn album_link(album: &Option<Album>) -> (out: Option<NameLink>)
    ensures
        album is None ==> out is None,
        album matches Some(a) ==> (out matches Some(l) && l.text@ == a.title@ && link_view(l.link)
            == page_link("/album/"@, a.id) && l.separator@.len() == 0),
{
    match album {
        Some(a) => Some(
            NameLink {
                text: a.title.clone(),
                link: page_address("/album/", a.id),
                separator: String::new(),
            },
        ),
        None => None,
    }
}

/// In a song list the last artist is followed by nothing, the one before
/// it by " & ", and every earlier one by ", ": two artists read "A & B",
/// three "A, B & C".
pub proof fn law_artist_separators(i: int, n: int)
    requires
        0 <= i < n,
    ensures
        i == n - 1 ==> artist_separator(i, n).len() == 0,
        i == n - 2 ==> artist_separator(i, n) == " & "@,
        i < n - 2 ==> artist_separator(i, n) == ", "@,
{
}

} // verus!

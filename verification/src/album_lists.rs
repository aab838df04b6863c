//! How the rows of an album query become the album list of an artist page.
//!
//! The query joins each album with one of its artists; an album with several
//! artists comes back as several rows. The rows are merged into one entry
//! per album, gathering the artists of all its rows, and the albums are
//! listed newest first.

use vstd::prelude::*;
use crate::models::backend;
use crate::models::frontend;
use crate::ranking::{Ranked, ranked_order, sort_by_rank};
use crate::song_lists::{
    PLACEHOLDER_IMAGE, distinct_ids, first_in, lemma_distinct_ids, lemma_first_in_at_most,
};

verus! {

/// A row of an album query: an album and one of its artists.
pub struct AlbumArtistRow {
    /// The album.
    pub album: backend::Album,
    /// One of its artists.
    pub artist: backend::Artist,
}

/// Why rows could not be made into a list of albums.
#[derive(Clone, Copy, Debug, PartialEq, Eq, Structural)]
pub enum AlbumListError {
    /// An album of the rows has no id.
    MissingAlbumId,
}

impl AlbumListError {
    /// The message of the error.
    pub fn message(&self) -> (s: String)
        ensures
            s@ == "Album id not found in database"@,
    {
        String::from_str("Album id not found in database")
    }
}

/// The album ids of a list of rows, an absent id taken as 0.
pub open spec fn album_ids(rows: Seq<AlbumArtistRow>) -> Seq<i32> {
    rows.map_values(|r: AlbumArtistRow| r.album.id.unwrap_or(0))
}

/// The artists of the first `k` rows that belong to the album `id`, in row order.
pub open spec fn album_artists_of(rows: Seq<AlbumArtistRow>, id: i32, k: int) -> Seq<backend::Artist>
    decreases k,
{
    if k <= 0 {
        Seq::empty()
    } else if album_ids(rows)[k - 1] == id {
        album_artists_of(rows, id, k - 1).push(rows[k - 1].artist)
    } else {
        album_artists_of(rows, id, k - 1)
    }
}

/// The image of an album: its own, else the placeholder.
pub open spec fn album_image(a: backend::Album) -> Seq<char> {
    match a.image_path {
        Some(p) => p@,
        None => PLACEHOLDER_IMAGE@,
    }
}

/// The entry of an album as its first row makes it, with the given artists.
pub open spec fn album_entry_matches(e: frontend::Album, a: backend::Album, artists: Seq<backend::Artist>) -> bool {
    &&& a.id == Some(e.id)
    &&& e.title == a.title
    &&& e.artists@ == artists
    &&& e.release_date == a.release_date
    &&& e.image_path@ == album_image(a)
}

/// The merged entries of the first `k` rows, one per album, in the order of
/// first appearance.
pub open spec fn albums_merged(rows: Seq<AlbumArtistRow>, k: int, out: Seq<frontend::Album>) -> bool {
    let ids = distinct_ids(album_ids(rows), k);
    &&& out.len() == ids.len()
    &&& forall|j: int|
        0 <= j < out.len() ==> {
            let p = first_in(album_ids(rows), ids[j], k);
            &&& p < k
            &&& album_entry_matches(#[trigger] out[j], rows[p].album, album_artists_of(rows, ids[j], k))
        }
}

/// The entries of an album list, in any order: one for each album of the
/// rows, made from its first row and gathering the artists of all its rows.
pub open spec fn albums_grouped(rows: Seq<AlbumArtistRow>, out: Seq<frontend::Album>) -> bool {
    let ids = album_ids(rows);
    let n = rows.len() as int;
    &&& out.len() == distinct_ids(ids, n).len()
    &&& forall|j: int|
        0 <= j < out.len() ==> {
            let p = first_in(ids, (#[trigger] out[j]).id, n);
            &&& p < n
            &&& album_entry_matches(out[j], rows[p].album, album_artists_of(rows, out[j].id, n))
        }
    &&& forall|a: int, b: int| 0 <= a < b < out.len() ==> out[a].id != out[b].id
    &&& forall|i: int| 0 <= i < n ==> exists|j: int| 0 <= j < out.len() && (#[trigger] out[j]).id == (#[trigger] ids[i])
}

/// Release dates newest first: an album with a date comes before one
/// without, and of two dated albums the later comes first.
pub open spec fn released_not_before(a: Option<i32>, b: Option<i32>) -> bool {
    match (a, b) {
        (_, None) => true,
        (None, Some(_)) => false,
        (Some(x), Some(y)) => x >= y,
    }
}

/// Artist pages list albums newest first.
impl Ranked for frontend::Album {
    open spec fn rank(&self) -> int {
        match self.release_date {
            None => -0x1_0000_0000,
            Some(d) => d as int,
        }
    }

    fn rank_of(&self) -> (r: i64) {
        match self.release_date {
            None => -0x1_0000_0000,
            Some(d) => d as i64,
        }
    }
}

/// No row before the first of an album carries an artist of it.
proof fn lemma_no_album_artists_before_first(rows: Seq<AlbumArtistRow>, id: i32, k: int)
    requires
        0 <= k <= rows.len(),
        first_in(album_ids(rows), id, k) == k,
    ensures
        album_artists_of(rows, id, k) == Seq::<backend::Artist>::empty(),
    decreases k,
{
    if k > 0 {
        lemma_distinct_ids(album_ids(rows), k - 1);
        lemma_no_album_artists_before_first(rows, id, k - 1);
    }
}

/// Merges the rows of an album query (all with ids) into one entry per album.
fn merge_album_rows(rows: Vec<AlbumArtistRow>) -> (out: Vec<frontend::Album>)
    requires
        forall|i: int| 0 <= i < rows@.len() ==> (#[trigger] rows@[i]).album.id is Some,
    ensures
        albums_merged(rows@, rows@.len() as int, out@),
{
    let ghost orig = rows@;
    let ghost ids = album_ids(orig);
    let n = rows.len();
    let mut rows = rows;
    let mut out: Vec<frontend::Album> = Vec::new();
    let mut i: usize = 0;
    while i < n
        invariant
            n == orig.len(),
            ids == album_ids(orig),
            i <= n,
            rows@ == orig.subrange(i as int, n as int),
            forall|k: int| 0 <= k < orig.len() ==> (#[trigger] orig[k]).album.id is Some,
            albums_merged(orig, i as int, out@),
        decreases n - i,
    {
        proof {
            lemma_distinct_ids(ids, i as int);
            lemma_distinct_ids(ids, i + 1);
        }
        let row = rows.remove(0);
        assert(row == orig[i as int]);
        let AlbumArtistRow { album, artist } = row;
        let id = match album.id {
            Some(id) => id,
            None => 0,
        };
        assert(ids[i as int] == id);
        let ghost before = out@;
        let ghost dist = distinct_ids(ids, i as int);
        let mut k: usize = 0;
        let mut found = false;
        while k < out.len()
            invariant_except_break
                !found,
            invariant
                k <= out@.len(),
                out@ == before,
                forall|j: int| 0 <= j < k ==> (#[trigger] out@[j]).id != id,
            ensures
                k <= out@.len(),
                out@ == before,
                found ==> k < out@.len() && out@[k as int].id == id,
                !found ==> forall|j: int| 0 <= j < out@.len() ==> (#[trigger] out@[j]).id != id,
            decreases out@.len() - k,
        {
            if out[k].id == id {
                found = true;
                break;
            }
            k = k + 1;
        }
        if found {
            proof {
                let p = first_in(ids, dist[k as int], i as int);
                assert(album_entry_matches(before[k as int], orig[p].album, album_artists_of(orig, dist[k as int], i as int)));
                assert(ids[p] == dist[k as int]);
                assert(dist[k as int] == id);
                assert(dist.contains(id));
                assert(first_in(ids, id, i as int) < i);
                assert(distinct_ids(ids, i + 1) == dist);
                assert forall|j: int| 0 <= j < dist.len()
                    implies first_in(ids, #[trigger] dist[j], i + 1) == first_in(ids, dist[j], i as int) by {
                    assert(dist.contains(dist[j]));
                }
            }
            let mut entry = out.remove(k);
            entry.artists.push(artist);
            out.insert(k, entry);
            proof {
                assert forall|j: int| 0 <= j < out@.len() implies {
                    let p = first_in(ids, dist[j], i + 1);
                    &&& p < i + 1
                    &&& album_entry_matches(#[trigger] out@[j], orig[p].album, album_artists_of(orig, dist[j], i + 1))
                } by {
                    if j != k {
                        assert(out@[j] == before[j]);
                        assert(dist[j] != dist[k as int]);
                    } else {
                        assert(out@[j].artists@ =~= before[j].artists@.push(artist));
                    }
                }
            }
        } else {
            proof {
                if dist.contains(id) {
                    let j = choose|j: int| 0 <= j < dist.len() && dist[j] == id;
                    let p = first_in(ids, dist[j], i as int);
                    assert(album_entry_matches(before[j], orig[p].album, album_artists_of(orig, dist[j], i as int)));
                    assert(ids[p] == dist[j]);
                    assert(out@[j].id == id);
                }
                assert(first_in(ids, id, i as int) == i);
                assert(distinct_ids(ids, i + 1) == dist.push(id));
                lemma_no_album_artists_before_first(orig, id, i as int);
                assert forall|j: int| 0 <= j < dist.len()
                    implies first_in(ids, #[trigger] dist[j], i + 1) == first_in(ids, dist[j], i as int) by {
                    assert(dist.contains(dist[j]));
                }
            }
            let image_path = match album.image_path {
                Some(p) => p,
                None => String::from_str(PLACEHOLDER_IMAGE),
            };
            let mut artists = Vec::new();
            artists.push(artist);
            let entry = frontend::Album {
                id,
                title: album.title,
                artists,
                release_date: album.release_date,
                image_path,
            };
            out.push(entry);
            proof {
                let nd = distinct_ids(ids, i + 1);
                assert forall|j: int| 0 <= j < out@.len() implies {
                    let p = first_in(ids, nd[j], i + 1);
                    &&& p < i + 1
                    &&& album_entry_matches(#[trigger] out@[j], orig[p].album, album_artists_of(orig, nd[j], i + 1))
                } by {
                    if j < before.len() {
                        assert(out@[j] == before[j]);
                        assert(nd[j] == dist[j]);
                        assert(dist[j] != id);
                    } else {
                        assert(nd[j] == id);
                        assert(out@[j].artists@ =~= album_artists_of(orig, id, i + 1));
                    }
                }
            }
        }
        i = i + 1;
    }
    out
}

/// A reordering of the merged albums is a grouping of the rows.
proof fn lemma_reordered_albums(rows: Seq<AlbumArtistRow>, m: Seq<frontend::Album>, out: Seq<frontend::Album>)
    requires
        albums_merged(rows, rows.len() as int, m),
        out.to_multiset() == m.to_multiset(),
    ensures
        albums_grouped(rows, out),
{
    broadcast use vstd::seq_lib::group_to_multiset_ensures;

    let ids = album_ids(rows);
    let n = rows.len() as int;
    let dist = distinct_ids(ids, n);
    lemma_distinct_ids(ids, n);
    assert(out.len() == m.len()) by {
        assert(out.len() == out.to_multiset().len());
        assert(m.len() == m.to_multiset().len());
    }
    assert forall|x: frontend::Album| out.contains(x) implies m.contains(x) by {
        assert(out.to_multiset().count(x) > 0);
    }
    assert forall|x: frontend::Album| m.contains(x) implies out.contains(x) by {
        assert(m.to_multiset().count(x) > 0);
    }
    assert forall|j: int| 0 <= j < m.len() implies (#[trigger] m[j]).id == dist[j] by {
        let p = first_in(ids, dist[j], n);
        assert(album_entry_matches(m[j], rows[p].album, album_artists_of(rows, dist[j], n)));
        assert(ids[p] == dist[j]);
    }
    assert forall|j: int| 0 <= j < out.len() implies {
        let p = first_in(ids, (#[trigger] out[j]).id, n);
        &&& p < n
        &&& album_entry_matches(out[j], rows[p].album, album_artists_of(rows, out[j].id, n))
    } by {
        assert(out.contains(out[j]));
        let i = choose|i: int| 0 <= i < m.len() && m[i] == out[j];
        assert(m[i].id == dist[i]);
    }
    assert(m.no_duplicates()) by {
        assert forall|a: int, b: int| 0 <= a < m.len() && 0 <= b < m.len() && a != b implies m[a] != m[b] by {
            assert(m[a].id == dist[a]);
            assert(m[b].id == dist[b]);
            if a < b {
                assert(dist[a] != dist[b]);
            } else {
                assert(dist[b] != dist[a]);
            }
        }
    }
    m.lemma_multiset_has_no_duplicates();
    out.lemma_multiset_has_no_duplicates_conv();
    assert forall|a: int, b: int| 0 <= a < b < out.len() implies out[a].id != out[b].id by {
        assert(out.contains(out[a]));
        assert(out.contains(out[b]));
        let ia = choose|i: int| 0 <= i < m.len() && m[i] == out[a];
        let ib = choose|i: int| 0 <= i < m.len() && m[i] == out[b];
        assert(m[ia].id == dist[ia]);
        assert(m[ib].id == dist[ib]);
        if ia < ib {
            assert(dist[ia] != dist[ib]);
        } else if ib < ia {
            assert(dist[ib] != dist[ia]);
        }
    }
    assert forall|i: int| 0 <= i < n implies exists|j: int| 0 <= j < out.len() && (#[trigger] out[j]).id == (#[trigger] ids[i]) by {
        let id = ids[i];
        lemma_first_in_at_most(ids, id, n, i);
        assert(dist.contains(id));
        let k = choose|k: int| 0 <= k < dist.len() && dist[k] == id;
        assert(m[k].id == dist[k]);
        assert(m.contains(m[k]));
        assert(out.contains(m[k]));
        let j = choose|j: int| 0 <= j < out.len() && out[j] == m[k];
    }
}

/// The albums of an artist, from the rows of their query: one entry per
/// album, made from its first row, with the artists of all its rows, newest
/// first. A row whose album has no id makes the error.
pub fn albums_from_rows(rows: Vec<AlbumArtistRow>) -> (r: Result<Vec<frontend::Album>, AlbumListError>)
    ensures
        (exists|i: int| 0 <= i < rows@.len() && (#[trigger] rows@[i]).album.id is None) ==> r
            == Err::<Vec<frontend::Album>, AlbumListError>(AlbumListError::MissingAlbumId),
        (forall|i: int| 0 <= i < rows@.len() ==> (#[trigger] rows@[i]).album.id is Some) ==> {
            &&& r is Ok
            &&& albums_grouped(rows@, r->Ok_0@)
            &&& forall|a: int, b: int|
                0 <= a < b < r->Ok_0@.len() ==> released_not_before(
                    r->Ok_0@[a].release_date,
                    r->Ok_0@[b].release_date,
                )
        },
{
    let n = rows.len();
    let mut i: usize = 0;
    while i < n
        invariant
            n == rows@.len(),
            i <= n,
            forall|k: int| 0 <= k < i ==> (#[trigger] rows@[k]).album.id is Some,
        decreases n - i,
    {
        if rows[i].album.id.is_none() {
            return Err(AlbumListError::MissingAlbumId);
        }
        i = i + 1;
    }
    let ghost orig = rows@;
    let merged_rows = merge_album_rows(rows);
    let ghost m = merged_rows@;
    let out = sort_by_rank(merged_rows);
    proof {
        lemma_reordered_albums(orig, m, out@);
        assert forall|a: int, b: int| 0 <= a < b < out@.len() implies released_not_before(
            out@[a].release_date,
            out@[b].release_date,
        ) by {
            assert(out@[a].rank() >= out@[b].rank());
        }
    }
    Ok(out)
}

/// An album as its page shows it, from the stored album and its artists:
/// an album without an image shows the placeholder. Every stored album has
/// an id.
pub fn album_page(album: backend::Album, artists: Vec<backend::Artist>) -> (out: frontend::Album)
    requires
        album.id is Some,
    ensures
        album_entry_matches(out, album, artists@),
{
    let image_path = match album.image_path {
        Some(p) => p,
        None => String::from_str(PLACEHOLDER_IMAGE),
    };
    frontend::Album {
        id: album.id.unwrap(),
        title: album.title,
        artists,
        release_date: album.release_date,
        image_path,
    }
}

} // verus!

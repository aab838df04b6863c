//! How the rows of a catalogue query become the song lists that pages show.
//!
//! A query joins each song with its album, one of its artists, and whether
//! the viewing user likes or dislikes it; a song with several artists comes
//! back as several rows. The rows are merged into one entry per song, in the
//! order in which the songs first appear, each entry gathering the artists
//! of all its rows; the entries are then put in the order that the page
//! wants.

use vstd::prelude::*;
use crate::models::backend;
use crate::models::frontend;
use crate::ranking::{Ranked, lemma_pairs_by_count, ranked_order, sort_by_rank};

verus! {

/// The image shown for a song that has none, and whose album has none.
pub const PLACEHOLDER_IMAGE: &'static str = "/assets/images/placeholders/MusicPlaceholder.svg";

/// One row of a song query, with the id under which it is grouped.
pub struct SongRow {
    /// The id of the song that the row belongs to.
    pub id: i32,
    /// The song.
    pub song: backend::Song,
    /// The song's album, if it has one.
    pub album: Option<backend::Album>,
    /// One of the song's artists, if it has any.
    pub artist: Option<backend::Artist>,
    /// Whether the viewing user likes the song.
    pub liked: bool,
    /// Whether the viewing user dislikes the song.
    pub disliked: bool,
}

/// What a page shows of a user's like and dislike of a song: nothing when
/// the song is neither liked nor disliked.
pub open spec fn like_dislike_of(liked: bool, disliked: bool) -> Option<(bool, bool)> {
    if liked || disliked {
        Some((liked, disliked))
    } else {
        None
    }
}

/// The user's like and dislike of a song, as pages show them.
pub fn like_dislike(liked: bool, disliked: bool) -> (r: Option<(bool, bool)>)
    ensures
        r == like_dislike_of(liked, disliked),
{
    match (liked, disliked) {
        (true, true) => Some((true, true)),
        (true, false) => Some((true, false)),
        (false, true) => Some((false, true)),
        _ => None,
    }
}

/// The image of a song: its own, else its album's, else the placeholder.
pub open spec fn song_image(song: backend::Song, album: Option<backend::Album>) -> Seq<char> {
    match song.image_path {
        Some(p) => p@,
        None => match album {
            Some(a) => match a.image_path {
                Some(q) => q@,
                None => PLACEHOLDER_IMAGE@,
            },
            None => PLACEHOLDER_IMAGE@,
        },
    }
}

/// The image of a song: its own, else its album's, else the placeholder.
pub fn song_image_path(song_image: Option<String>, album: &Option<backend::Album>) -> (s: String)
    ensures
        s@ == (match song_image {
            Some(p) => p@,
            None => match album {
                Some(a) => match a.image_path {
                    Some(q) => q@,
                    None => PLACEHOLDER_IMAGE@,
                },
                None => PLACEHOLDER_IMAGE@,
            },
        }),
{
    match song_image {
        Some(p) => p,
        None => match album {
            Some(a) => match &a.image_path {
                Some(q) => q.clone(),
                None => String::from_str(PLACEHOLDER_IMAGE),
            },
            None => String::from_str(PLACEHOLDER_IMAGE),
        },
    }
}

/// The ids of a list of rows.
pub open spec fn row_ids(rows: Seq<SongRow>) -> Seq<i32> {
    rows.map_values(|r: SongRow| r.id)
}

/// The position of the first of the first `k` ids that equals `id`, or `k`
/// when none does.
pub open spec fn first_in(ids: Seq<i32>, id: i32, k: int) -> int
    decreases k,
{
    if k <= 0 {
        0
    } else {
        let p = first_in(ids, id, k - 1);
        if p < k - 1 {
            p
        } else if ids[k - 1] == id {
            k - 1
        } else {
            k
        }
    }
}

/// The distinct ids among the first `k`, in the order of their first appearance.
pub open spec fn distinct_ids(ids: Seq<i32>, k: int) -> Seq<i32>
    decreases k,
{
    if k <= 0 {
        Seq::empty()
    } else if first_in(ids, ids[k - 1], k - 1) < k - 1 {
        distinct_ids(ids, k - 1)
    } else {
        distinct_ids(ids, k - 1).push(ids[k - 1])
    }
}

/// The artists of the first `k` rows that belong to `id`, in row order.
pub open spec fn artists_of(rows: Seq<SongRow>, id: i32, k: int) -> Seq<backend::Artist>
    decreases k,
{
    if k <= 0 {
        Seq::empty()
    } else {
        let r = rows[k - 1];
        if r.id == id && r.artist is Some {
            artists_of(rows, id, k - 1).push(r.artist->0)
        } else {
            artists_of(rows, id, k - 1)
        }
    }
}

/// The entry of a song as the first of its rows makes it, with the given
/// artists: everything but the image, which a `String` made afresh holds.
pub open spec fn entry_matches(s: frontend::Song, r: SongRow, artists: Seq<backend::Artist>) -> bool {
    &&& s.id == r.id
    &&& s.title == r.song.title
    &&& s.artists@ == artists
    &&& s.album == r.album
    &&& s.track == r.song.track
    &&& s.duration == r.song.duration
    &&& s.release_date == r.song.release_date
    &&& s.song_path == r.song.storage_path
    &&& s.image_path@ == song_image(r.song, r.album)
    &&& s.like_dislike == like_dislike_of(r.liked, r.disliked)
    &&& r.song.added_date is Some
    &&& s.added_date == r.song.added_date->0
}

/// Every row that is the first of its id carries the date its song was added.
pub open spec fn first_rows_dated(rows: Seq<SongRow>) -> bool {
    forall|i: int|
        0 <= i < rows.len() && first_in(row_ids(rows), rows[i].id, i) == i
            ==> (#[trigger] rows[i]).song.added_date is Some
}

/// The merged entries of the first `k` rows: one per distinct id, in the
/// order of first appearance, each made from the first row of its id and
/// gathering the artists of its rows.
pub open spec fn merged(rows: Seq<SongRow>, k: int, out: Seq<frontend::Song>) -> bool {
    let ids = distinct_ids(row_ids(rows), k);
    &&& out.len() == ids.len()
    &&& forall|j: int|
        0 <= j < out.len() ==> {
            let p = first_in(row_ids(rows), ids[j], k);
            &&& p < k
            &&& entry_matches(#[trigger] out[j], rows[p], artists_of(rows, ids[j], k))
        }
}

/// An id is among the distinct ids of the first `k` exactly when it occurs
/// there, and then its first position is below `k`; the distinct ids are
/// pairwise different.
pub(crate) proof fn lemma_distinct_ids(ids: Seq<i32>, k: int)
    requires
        0 <= k <= ids.len(),
    ensures
        forall|id: i32| #[trigger] distinct_ids(ids, k).contains(id) <==> first_in(ids, id, k) < k,
        forall|id: i32| #[trigger] first_in(ids, id, k) < k ==> ids[first_in(ids, id, k)] == id,
        forall|id: i32| 0 <= #[trigger] first_in(ids, id, k) <= k,
        forall|a: int, b: int|
            0 <= a < b < distinct_ids(ids, k).len() ==> distinct_ids(ids, k)[a] != distinct_ids(ids, k)[b],
    decreases k,
{
    if k > 0 {
        lemma_distinct_ids(ids, k - 1);
        let prev = distinct_ids(ids, k - 1);
        let cur = distinct_ids(ids, k);
        let last = ids[k - 1];
        assert forall|id: i32| 0 <= #[trigger] first_in(ids, id, k) <= k by {
            assert(0 <= first_in(ids, id, k - 1) <= k - 1);
        }
        assert forall|id: i32| #[trigger] first_in(ids, id, k) < k implies ids[first_in(ids, id, k)] == id by {
            let p = first_in(ids, id, k - 1);
            assert(0 <= p <= k - 1);
            if p < k - 1 {
                assert(ids[p] == id);
            }
        }
        assert forall|id: i32| #[trigger] cur.contains(id) <==> first_in(ids, id, k) < k by {
            let p = first_in(ids, id, k - 1);
            assert(0 <= p <= k - 1);
            assert(prev.contains(id) <==> p < k - 1);
            if first_in(ids, last, k - 1) < k - 1 {
                assert(cur == prev);
            } else {
                assert(cur == prev.push(last));
                if id == last {
                    assert(cur[prev.len() as int] == id);
                } else {
                    if cur.contains(id) {
                        let j = choose|j: int| 0 <= j < cur.len() && cur[j] == id;
                        assert(j < prev.len());
                        assert(prev[j] == id);
                    }
                    if prev.contains(id) {
                        let j = choose|j: int| 0 <= j < prev.len() && prev[j] == id;
                        assert(cur[j] == id);
                    }
                }
            }
        }
        assert forall|a: int, b: int| 0 <= a < b < cur.len() implies cur[a] != cur[b] by {
            if first_in(ids, last, k - 1) < k - 1 {
            } else if b == prev.len() {
                assert(prev.contains(prev[a]));
                assert(0 <= first_in(ids, last, k - 1) <= k - 1);
            }
        }
    }
}

/// No row before the first of an id carries an artist of it.
proof fn lemma_no_artists_before_first(rows: Seq<SongRow>, id: i32, k: int)
    requires
        0 <= k <= rows.len(),
        first_in(row_ids(rows), id, k) == k,
    ensures
        artists_of(rows, id, k) == Seq::<backend::Artist>::empty(),
    decreases k,
{
    if k > 0 {
        let ids = row_ids(rows);
        lemma_distinct_ids(ids, k - 1);
        let p = first_in(ids, id, k - 1);
        assert(p == k - 1);
        assert(ids[k - 1] == rows[k - 1].id);
        lemma_no_artists_before_first(rows, id, k - 1);
    }
}

/// Merges the rows of a song query into one entry per song: the entries
/// come in the order in which their songs first appear, each is made from
/// the first row of its song, and each gathers the artists of all the rows
/// of its song, in row order.
pub fn merge_song_rows(rows: Vec<SongRow>) -> (out: Vec<frontend::Song>)
    requires
        first_rows_dated(rows@),
    ensures
        merged(rows@, rows@.len() as int, out@),
{
    let ghost orig = rows@;
    let ghost ids = row_ids(orig);
    let n = rows.len();
    let mut rows = rows;
    let mut out: Vec<frontend::Song> = Vec::new();
    let mut i: usize = 0;
    while i < n
        invariant
            n == orig.len(),
            ids == row_ids(orig),
            i <= n,
            rows@ == orig.subrange(i as int, n as int),
            first_rows_dated(orig),
            merged(orig, i as int, out@),
        decreases n - i,
    {
        proof {
            lemma_distinct_ids(ids, i as int);
            lemma_distinct_ids(ids, i + 1);
        }
        let row = rows.remove(0);
        assert(row == orig[i as int]);
        assert(ids[i as int] == row.id);
        let ghost before = out@;
        let ghost dist = distinct_ids(ids, i as int);
        let mut k: usize = 0;
        let mut found = false;
        while k < out.len()
            invariant_except_break
                !found,
            invariant
                k <= out@.len(),
                out@ == before,
                forall|j: int| 0 <= j < k ==> (#[trigger] out@[j]).id != row.id,
            ensures
                k <= out@.len(),
                out@ == before,
                found ==> k < out@.len() && out@[k as int].id == row.id,
                !found ==> forall|j: int| 0 <= j < out@.len() ==> (#[trigger] out@[j]).id != row.id,
            decreases out@.len() - k,
        {
            if out[k].id == row.id {
                found = true;
                break;
            }
            k = k + 1;
        }
        if found {
            proof {
                assert(dist[k as int] == row.id);
                assert(dist.contains(row.id));
                assert(first_in(ids, row.id, i as int) < i);
                assert(distinct_ids(ids, i + 1) == dist);
                assert forall|j: int| 0 <= j < dist.len()
                    implies first_in(ids, #[trigger] dist[j], i + 1) == first_in(ids, dist[j], i as int) by {
                    assert(dist.contains(dist[j]));
                }
            }
            match row.artist {
                Some(a) => {
                    let mut entry = out.remove(k);
                    entry.artists.push(a);
                    out.insert(k, entry);
                    proof {
                        assert forall|j: int| 0 <= j < out@.len() implies {
                            let p = first_in(ids, dist[j], i + 1);
                            &&& p < i + 1
                            &&& entry_matches(#[trigger] out@[j], orig[p], artists_of(orig, dist[j], i + 1))
                        } by {
                            if j != k {
                                assert(out@[j] == before[j]);
                                assert(dist[j] != dist[k as int]);
                            } else {
                                assert(out@[j].artists@ =~= before[j].artists@.push(a));
                            }
                        }
                    }
                },
                None => {
                    proof {
                        assert forall|j: int| 0 <= j < out@.len() implies {
                            let p = first_in(ids, dist[j], i + 1);
                            &&& p < i + 1
                            &&& entry_matches(#[trigger] out@[j], orig[p], artists_of(orig, dist[j], i + 1))
                        } by {
                            assert(out@[j] == before[j]);
                        }
                    }
                },
            }
        } else {
            proof {
                if dist.contains(row.id) {
                    let j = choose|j: int| 0 <= j < dist.len() && dist[j] == row.id;
                    assert(out@[j].id == row.id);
                }
                assert(first_in(ids, row.id, i as int) == i);
                assert(distinct_ids(ids, i + 1) == dist.push(row.id));
                lemma_no_artists_before_first(orig, row.id, i as int);
                assert forall|j: int| 0 <= j < dist.len()
                    implies first_in(ids, #[trigger] dist[j], i + 1) == first_in(ids, dist[j], i as int) by {
                    assert(dist.contains(dist[j]));
                }
                assert(orig[i as int].song.added_date is Some);
            }
            let SongRow { id, song, album, artist, liked, disliked } = row;
            let image_path = song_image_path(song.image_path, &album);
            let added_date = match song.added_date {
                Some(d) => d,
                None => 0,
            };
            let artists = match artist {
                Some(a) => {
                    let mut v = Vec::new();
                    v.push(a);
                    v
                },
                None => Vec::new(),
            };
            let like_dislike = like_dislike(liked, disliked);
            let entry = frontend::Song {
                id,
                title: song.title,
                artists,
                album,
                track: song.track,
                duration: song.duration,
                release_date: song.release_date,
                song_path: song.storage_path,
                image_path,
                like_dislike,
                added_date,
            };
            out.push(entry);
            proof {
                let nd = distinct_ids(ids, i + 1);
                assert forall|j: int| 0 <= j < out@.len() implies {
                    let p = first_in(ids, nd[j], i + 1);
                    &&& p < i + 1
                    &&& entry_matches(#[trigger] out@[j], orig[p], artists_of(orig, nd[j], i + 1))
                } by {
                    if j < before.len() {
                        assert(out@[j] == before[j]);
                        assert(nd[j] == dist[j]);
                        assert(dist[j] != row.id);
                    } else {
                        assert(nd[j] == row.id);
                        assert(out@[j].artists@ =~= artists_of(orig, row.id, i + 1));
                    }
                }
            }
        }
        i = i + 1;
    }
    proof {
        assert(rows@.len() == 0);
    }
    out
}

/// The entries of a song list made from rows, in any order: one entry for
/// each song of the rows, made from the song's first row, and gathering the
/// artists of all its rows.
pub open spec fn grouped(rows: Seq<SongRow>, out: Seq<frontend::Song>) -> bool {
    let ids = row_ids(rows);
    let n = rows.len() as int;
    &&& out.len() == distinct_ids(ids, n).len()
    &&& forall|j: int|
        0 <= j < out.len() ==> {
            let p = first_in(ids, (#[trigger] out[j]).id, n);
            &&& p < n
            &&& entry_matches(out[j], rows[p], artists_of(rows, out[j].id, n))
        }
    &&& forall|a: int, b: int| 0 <= a < b < out.len() ==> out[a].id != out[b].id
    &&& forall|i: int| 0 <= i < n ==> exists|j: int| 0 <= j < out.len() && (#[trigger] out[j]).id == (#[trigger] rows[i]).id
}

/// A reordering of items that carry the merged entries carries a grouping
/// of the rows.
proof fn lemma_reordered_merge<T>(
    rows: Seq<SongRow>,
    m: Seq<T>,
    out: Seq<T>,
    f: spec_fn(T) -> frontend::Song,
)
    requires
        merged(rows, rows.len() as int, m.map_values(f)),
        out.to_multiset() == m.to_multiset(),
    ensures
        grouped(rows, out.map_values(f)),
{
    broadcast use vstd::seq_lib::group_to_multiset_ensures;

    let ids = row_ids(rows);
    let n = rows.len() as int;
    let dist = distinct_ids(ids, n);
    let mm = m.map_values(f);
    let oo = out.map_values(f);
    lemma_distinct_ids(ids, n);
    assert(out.len() == m.len()) by {
        assert(out.len() == out.to_multiset().len());
        assert(m.len() == m.to_multiset().len());
    }
    assert forall|x: T| out.contains(x) implies m.contains(x) by {
        assert(out.to_multiset().count(x) > 0);
    }
    assert forall|x: T| m.contains(x) implies out.contains(x) by {
        assert(m.to_multiset().count(x) > 0);
    }
    assert forall|j: int| 0 <= j < oo.len() implies {
        let p = first_in(ids, (#[trigger] oo[j]).id, n);
        &&& p < n
        &&& entry_matches(oo[j], rows[p], artists_of(rows, oo[j].id, n))
    } by {
        assert(out.contains(out[j]));
        let i = choose|i: int| 0 <= i < m.len() && m[i] == out[j];
        assert(mm[i] == oo[j]);
        assert(entry_matches(mm[i], rows[first_in(ids, dist[i], n)], artists_of(rows, dist[i], n)));
    }
    assert(m.no_duplicates()) by {
        assert forall|a: int, b: int| 0 <= a < m.len() && 0 <= b < m.len() && a != b implies m[a] != m[b] by {
            let p = first_in(ids, dist[a], n);
            let q = first_in(ids, dist[b], n);
            assert(entry_matches(mm[a], rows[p], artists_of(rows, dist[a], n)));
            assert(entry_matches(mm[b], rows[q], artists_of(rows, dist[b], n)));
            if a < b {
                assert(dist[a] != dist[b]);
            } else {
                assert(dist[b] != dist[a]);
            }
        }
    }
    m.lemma_multiset_has_no_duplicates();
    out.lemma_multiset_has_no_duplicates_conv();
    assert forall|a: int, b: int| 0 <= a < b < oo.len() implies oo[a].id != oo[b].id by {
        assert(out.contains(out[a]));
        assert(out.contains(out[b]));
        let ia = choose|i: int| 0 <= i < m.len() && m[i] == out[a];
        let ib = choose|i: int| 0 <= i < m.len() && m[i] == out[b];
        let pa = first_in(ids, dist[ia], n);
        let pb = first_in(ids, dist[ib], n);
        assert(entry_matches(mm[ia], rows[pa], artists_of(rows, dist[ia], n)));
        assert(entry_matches(mm[ib], rows[pb], artists_of(rows, dist[ib], n)));
        if ia < ib {
            assert(dist[ia] != dist[ib]);
        } else if ib < ia {
            assert(dist[ib] != dist[ia]);
        }
    }
    assert forall|i: int| 0 <= i < n implies exists|j: int| 0 <= j < oo.len() && (#[trigger] oo[j]).id == (#[trigger] rows[i]).id by {
        let id = rows[i].id;
        assert(ids[i] == id);
        assert(first_in(ids, id, n) <= i) by {
            lemma_first_in_at_most(ids, id, n, i);
        }
        assert(dist.contains(id));
        let k = choose|k: int| 0 <= k < dist.len() && dist[k] == id;
        let p = first_in(ids, dist[k], n);
        assert(entry_matches(mm[k], rows[p], artists_of(rows, dist[k], n)));
        assert(m.contains(m[k]));
        assert(out.contains(m[k]));
        let j = choose|j: int| 0 <= j < out.len() && out[j] == m[k];
        assert(oo[j].id == rows[i].id);
    }
}

/// The first position of an id is at most any position where it occurs.
pub(crate) proof fn lemma_first_in_at_most(ids: Seq<i32>, id: i32, k: int, i: int)
    requires
        0 <= i < k <= ids.len(),
        ids[i] == id,
    ensures
        first_in(ids, id, k) <= i,
    decreases k,
{
    lemma_distinct_ids(ids, k - 1);
    if i < k - 1 {
        lemma_first_in_at_most(ids, id, k - 1, i);
    }
}

/// A row of an album's song query: the album, one of its songs (if it has
/// any), one artist of that song, and the viewing user's like and dislike.
pub struct AlbumSongRow {
    /// The album.
    pub album: backend::Album,
    /// One of the album's songs, if it has any.
    pub song: Option<backend::Song>,
    /// One artist of the song.
    pub artist: Option<backend::Artist>,
    /// Whether the viewing user likes the song.
    pub liked: bool,
    /// Whether the viewing user dislikes the song.
    pub disliked: bool,
}

/// The song rows among the first `k` rows of an album query: those with a
/// song, under the song's id, with the album as the song's album.
pub open spec fn album_song_rows(rows: Seq<AlbumSongRow>, k: int) -> Seq<SongRow>
    decreases k,
{
    if k <= 0 {
        Seq::empty()
    } else {
        let r = rows[k - 1];
        match r.song {
            Some(song) => album_song_rows(rows, k - 1).push(
                SongRow {
                    id: song.id->0,
                    song,
                    album: Some(r.album),
                    artist: r.artist,
                    liked: r.liked,
                    disliked: r.disliked,
                },
            ),
            None => album_song_rows(rows, k - 1),
        }
    }
}

/// Tracks in album order: a song without a track number comes first, then
/// songs by increasing track number.
pub open spec fn track_before(a: Option<i32>, b: Option<i32>) -> bool {
    match (a, b) {
        (None, _) => true,
        (Some(_), None) => false,
        (Some(x), Some(y)) => x <= y,
    }
}

/// The rank of a track in an album list: lists put higher ranks first.
pub open spec fn track_rank(t: Option<i32>) -> int {
    match t {
        None => 0x1_0000_0000,
        Some(x) => -x,
    }
}

/// Album pages list songs by track.
impl Ranked for frontend::Song {
    open spec fn rank(&self) -> int {
        track_rank(self.track)
    }

    fn rank_of(&self) -> (r: i64) {
        match self.track {
            None => 0x1_0000_0000,
            Some(x) => -(x as i64),
        }
    }
}

/// The songs of an album, from the rows of its query: one entry per song,
/// made from the song's first row, with the artists of all its rows, listed
/// by track number (songs without one first).
pub fn album_songs(rows: Vec<AlbumSongRow>) -> (out: Vec<frontend::Song>)
    requires
        forall|i: int| 0 <= i < rows@.len() && (#[trigger] rows@[i]).song is Some ==> rows@[i].song->0.id is Some,
        first_rows_dated(album_song_rows(rows@, rows@.len() as int)),
    ensures
        grouped(album_song_rows(rows@, rows@.len() as int), out@),
        forall|a: int, b: int| 0 <= a < b < out@.len() ==> track_before(out@[a].track, out@[b].track),
{
    let ghost orig = rows@;
    let n = rows.len();
    let mut rows = rows;
    let mut song_rows: Vec<SongRow> = Vec::new();
    let mut i: usize = 0;
    while i < n
        invariant
            n == orig.len(),
            i <= n,
            rows@ == orig.subrange(i as int, n as int),
            song_rows@ == album_song_rows(orig, i as int),
            forall|k: int| 0 <= k < orig.len() && (#[trigger] orig[k]).song is Some ==> orig[k].song->0.id is Some,
        decreases n - i,
    {
        let row = rows.remove(0);
        assert(row == orig[i as int]);
        let AlbumSongRow { album, song, artist, liked, disliked } = row;
        match song {
            Some(song) => {
                let id = match song.id {
                    Some(id) => id,
                    None => 0,
                };
                song_rows.push(SongRow { id, song, album: Some(album), artist, liked, disliked });
            },
            None => {},
        }
        i = i + 1;
    }
    let merged_rows = merge_song_rows(song_rows);
    let ghost m = merged_rows@;
    let out = sort_by_rank(merged_rows);
    proof {
        let ident = |x: frontend::Song| x;
        assert(m.map_values(ident) =~= m);
        assert(out@.map_values(ident) =~= out@);
        lemma_reordered_merge(album_song_rows(orig, n as int), m, out@, ident);
        assert forall|a: int, b: int| 0 <= a < b < out@.len() implies track_before(out@[a].track, out@[b].track) by {
            assert(out@[a].rank() >= out@[b].rank());
        }
    }
    out
}

/// A row of a song query: a song, its album (if it has one), one of its
/// artists, and the viewing user's like and dislike.
pub struct SongQueryRow {
    /// The song.
    pub song: backend::Song,
    /// The song's album, if it has one.
    pub album: Option<backend::Album>,
    /// One of the song's artists, if it has any.
    pub artist: Option<backend::Artist>,
    /// Whether the viewing user likes the song.
    pub liked: bool,
    /// Whether the viewing user dislikes the song.
    pub disliked: bool,
}

/// Why rows could not be made into a list of songs with their play counts.
#[derive(Clone, Copy, Debug, PartialEq, Eq, Structural)]
pub enum SongListError {
    /// A song of the rows has no id.
    MissingSongId,
    /// A song of the rows has no play count.
    MissingPlayCount,
}

/// The message of an error.
pub open spec fn song_list_error_message(e: SongListError) -> Seq<char> {
    match e {
        SongListError::MissingSongId => "Song id not found in database"@,
        SongListError::MissingPlayCount => "Song id not found in history counts"@,
    }
}

impl SongListError {
    /// The message of the error.
    pub fn message(&self) -> (s: String)
        ensures
            s@ == song_list_error_message(*self),
    {
        match self {
            SongListError::MissingSongId => String::from_str("Song id not found in database"),
            SongListError::MissingPlayCount => String::from_str("Song id not found in history counts"),
        }
    }
}

/// The song rows of a song query, under the ids of their songs.
pub open spec fn query_song_rows(rows: Seq<SongQueryRow>) -> Seq<SongRow> {
    rows.map_values(
        |r: SongQueryRow|
            SongRow {
                id: r.song.id->0,
                song: r.song,
                album: r.album,
                artist: r.artist,
                liked: r.liked,
                disliked: r.disliked,
            },
    )
}

/// A row before the `i`-th belongs to the song with id `x`.
pub open spec fn seen_before(rows: Seq<SongQueryRow>, x: i32, i: int) -> bool {
    exists|j: int| 0 <= j < i && (#[trigger] rows[j]).song.id == Some(x)
}

/// The play counts hold one for the song with id `x`.
pub open spec fn has_count(counts: Seq<(i32, i64)>, x: i32) -> bool {
    exists|k: int| 0 <= k < counts.len() && (#[trigger] counts[k]).0 == x
}

/// The play count of the song with id `x` among the first `k` counts: the
/// last one given for it (a later count for the same song replaces an
/// earlier one).
pub open spec fn plays_of(counts: Seq<(i32, i64)>, x: i32, k: int) -> i64
    decreases k,
{
    if k <= 0 {
        0
    } else if counts[k - 1].0 == x {
        counts[k - 1].1
    } else {
        plays_of(counts, x, k - 1)
    }
}

/// The `i`-th row stops the list: its song has no id, or it is the first
/// row of its song and the song has no play count.
pub open spec fn row_fails(rows: Seq<SongQueryRow>, counts: Seq<(i32, i64)>, i: int) -> bool {
    match rows[i].song.id {
        None => true,
        Some(x) => !seen_before(rows, x, i) && !has_count(counts, x),
    }
}

/// The first of the first `k` rows that stops the list, or `k` when none does.
pub open spec fn first_failure(rows: Seq<SongQueryRow>, counts: Seq<(i32, i64)>, k: int) -> int
    decreases k,
{
    if k <= 0 {
        0
    } else {
        let p = first_failure(rows, counts, k - 1);
        if p < k - 1 {
            p
        } else if row_fails(rows, counts, k - 1) {
            k - 1
        } else {
            k
        }
    }
}

/// The error that the `i`-th row stops the list with.
pub open spec fn failure_error(rows: Seq<SongQueryRow>, i: int) -> SongListError {
    if rows[i].song.id is None {
        SongListError::MissingSongId
    } else {
        SongListError::MissingPlayCount
    }
}

/// Every row that is the first of its song, and that no earlier row stops
/// the list before, carries the date its song was added.
pub open spec fn counted_rows_dated(rows: Seq<SongQueryRow>, counts: Seq<(i32, i64)>) -> bool {
    forall|i: int|
        0 <= i < rows.len() && first_failure(rows, counts, i) == i && (#[trigger] rows[i]).song.id is Some
            && !seen_before(rows, rows[i].song.id->0, i) ==> rows[i].song.added_date is Some
}

/// The first position of an id is below `k` exactly when it occurs there.
proof fn lemma_first_in_occurs(ids: Seq<i32>, id: i32, k: int)
    requires
        0 <= k <= ids.len(),
    ensures
        first_in(ids, id, k) < k <==> exists|j: int| 0 <= j < k && ids[j] == id,
{
    lemma_distinct_ids(ids, k);
    if exists|j: int| 0 <= j < k && ids[j] == id {
        let j = choose|j: int| 0 <= j < k && ids[j] == id;
        lemma_first_in_at_most(ids, id, k, j);
    }
}

/// The failures found so far stay the first ones.
proof fn lemma_first_failure_bounds(rows: Seq<SongQueryRow>, counts: Seq<(i32, i64)>, k: int)
    requires
        0 <= k <= rows.len(),
    ensures
        0 <= first_failure(rows, counts, k) <= k,
        first_failure(rows, counts, k) < k ==> row_fails(rows, counts, first_failure(rows, counts, k)),
        forall|i: int| 0 <= i < first_failure(rows, counts, k) ==> !row_fails(rows, counts, i),
    decreases k,
{
    if k > 0 {
        lemma_first_failure_bounds(rows, counts, k - 1);
    }
}

/// The play count of a song: the last one given for it.
fn find_plays(counts: &Vec<(i32, i64)>, x: i32) -> (r: Option<i64>)
    ensures
        r is Some <==> has_count(counts@, x),
        r is Some ==> r->0 == plays_of(counts@, x, counts@.len() as int),
{
    let mut k = counts.len();
    while k > 0
        invariant
            k <= counts@.len(),
            forall|j: int| k <= j < counts@.len() ==> (#[trigger] counts@[j]).0 != x,
            forall|kk: int| k <= kk <= counts@.len() ==> plays_of(counts@, x, kk) == plays_of(counts@, x, k as int),
        decreases k,
    {
        if counts[k - 1].0 == x {
            return Some(counts[k - 1].1);
        }
        k = k - 1;
    }
    None
}

/// Songs with their play counts, from the rows of a song query and the play
/// counts of the songs: one entry per song, made from the song's first row,
/// with the artists of all its rows, each with the play count of its song,
/// most played first.
///
/// The rows are taken in order: the first row whose song has no id, or that
/// is the first row of a song without a play count, stops the list with the
/// matching error.
pub fn songs_with_plays(rows: Vec<SongQueryRow>, counts: Vec<(i32, i64)>) -> (r: Result<
    Vec<(i64, frontend::Song)>,
    SongListError,
>)
    requires
        counted_rows_dated(rows@, counts@),
    ensures
        first_failure(rows@, counts@, rows@.len() as int) < rows@.len() ==> r == Err::<
            Vec<(i64, frontend::Song)>,
            SongListError,
        >(failure_error(rows@, first_failure(rows@, counts@, rows@.len() as int))),
        first_failure(rows@, counts@, rows@.len() as int) == rows@.len() ==> {
            &&& r is Ok
            &&& grouped(query_song_rows(rows@), r->Ok_0@.map_values(|p: (i64, frontend::Song)| p.1))
            &&& forall|j: int|
                0 <= j < r->Ok_0@.len() ==> (#[trigger] r->Ok_0@[j]).0 == plays_of(
                    counts@,
                    r->Ok_0@[j].1.id,
                    counts@.len() as int,
                )
            &&& ranked_order(r->Ok_0@)
            &&& forall|a: int, b: int|
                0 <= a < b < r->Ok_0@.len() ==> r->Ok_0@[a].0 >= r->Ok_0@[b].0
        },
{
    let ghost orig = rows@;
    let n = rows.len();
    let mut i: usize = 0;
    while i < n
        invariant
            n == orig.len(),
            orig == rows@,
            i <= n,
            first_failure(orig, counts@, i as int) == i,
        decreases n - i,
    {
        proof {
            lemma_first_failure_bounds(orig, counts@, i as int);
        }
        match rows[i].song.id {
            None => {
                proof {
                    assert(row_fails(orig, counts@, i as int));
                    assert(first_failure(orig, counts@, i + 1) == i);
                    lemma_first_failure_stable(orig, counts@, i + 1, n as int);
                }
                return Err(SongListError::MissingSongId);
            },
            Some(x) => {
                let mut j: usize = 0;
                let mut seen = false;
                while j < i
                    invariant_except_break
                        !seen,
                    invariant
                        j <= i,
                        i < n,
                        n == orig.len(),
                        orig == rows@,
                        forall|jj: int| 0 <= jj < j ==> (#[trigger] orig[jj]).song.id != Some(x),
                    ensures
                        seen <==> seen_before(orig, x, i as int),
                    decreases i - j,
                {
                    if rows[j].song.id == Some(x) {
                        seen = true;
                        break;
                    }
                    j = j + 1;
                }
                if !seen {
                    let c = find_plays(&counts, x);
                    if c.is_none() {
                        proof {
                            assert(row_fails(orig, counts@, i as int));
                            assert(first_failure(orig, counts@, i + 1) == i);
                            lemma_first_failure_stable(orig, counts@, i + 1, n as int);
                        }
                        return Err(SongListError::MissingPlayCount);
                    }
                }
            },
        }
        i = i + 1;
    }
    // No row stops the list: every song has an id.
    let ghost srows = query_song_rows(orig);
    let ghost ids = row_ids(srows);
    proof {
        lemma_first_failure_bounds(orig, counts@, n as int);
        assert forall|k: int| 0 <= k < n implies (#[trigger] orig[k]).song.id is Some by {
            assert(!row_fails(orig, counts@, k));
        }
        assert forall|k: int|
            0 <= k < srows.len() && first_in(row_ids(srows), srows[k].id, k) == k
                implies (#[trigger] srows[k]).song.added_date is Some by {
            assert(!row_fails(orig, counts@, k));
            assert(orig[k].song.id is Some);
            let x = orig[k].song.id->0;
            assert(srows[k].id == x);
            lemma_first_in_occurs(ids, x, k);
            if seen_before(orig, x, k) {
                let j = choose|j: int| 0 <= j < k && (#[trigger] orig[j]).song.id == Some(x);
                assert(ids[j] == x);
            }
            assert(first_failure(orig, counts@, k) == k) by {
                lemma_first_failure_prefix(orig, counts@, k, n as int);
            }
        }
    }
    let mut rows = rows;
    let mut song_rows: Vec<SongRow> = Vec::new();
    let mut i: usize = 0;
    while i < n
        invariant
            n == orig.len(),
            i <= n,
            rows@ == orig.subrange(i as int, n as int),
            song_rows@ == srows.subrange(0, i as int),
            srows == query_song_rows(orig),
            forall|k: int| 0 <= k < n ==> (#[trigger] orig[k]).song.id is Some,
        decreases n - i,
    {
        let row = rows.remove(0);
        assert(row == orig[i as int]);
        let SongQueryRow { song, album, artist, liked, disliked } = row;
        let id = match song.id {
            Some(id) => id,
            None => 0,
        };
        song_rows.push(SongRow { id, song, album, artist, liked, disliked });
        assert(song_rows@ =~= srows.subrange(0, i + 1));
        i = i + 1;
    }
    assert(song_rows@ =~= srows);
    let mut merged_rows = merge_song_rows(song_rows);
    let ghost m = merged_rows@;
    let mut pairs: Vec<(i64, frontend::Song)> = Vec::new();
    let mut k: usize = 0;
    let total = merged_rows.len();
    proof {
        lemma_distinct_ids(ids, n as int);
    }
    while k < total
        invariant
            total == m.len(),
            k <= total,
            merged_rows@ == m.subrange(k as int, total as int),
            merged(srows, n as int, m),
            pairs@.map_values(|p: (i64, frontend::Song)| p.1) == m.subrange(0, k as int),
            forall|j: int|
                0 <= j < k ==> (#[trigger] pairs@[j]).0 == plays_of(counts@, pairs@[j].1.id, counts@.len() as int),
            forall|j: int| 0 <= j < n ==> !row_fails(orig, counts@, j),
            forall|j: int| 0 <= j < n ==> (#[trigger] orig[j]).song.id is Some,
            pairs@.len() == k,
            srows.len() == n,
            srows == query_song_rows(orig),
            ids == row_ids(srows),
            n == orig.len(),
            forall|id: i32| #[trigger] first_in(ids, id, n as int) < n ==> ids[first_in(ids, id, n as int)] == id,
        decreases total - k,
    {
        let entry = merged_rows.remove(0);
        assert(entry == m[k as int]);
        let ghost p = first_in(ids, entry.id, n as int);
        proof {
            lemma_distinct_ids(ids, n as int);
            let d = distinct_ids(ids, n as int);
            let q = first_in(ids, d[k as int], n as int);
            assert(q < n);
            assert(entry_matches(m[k as int], srows[q], artists_of(srows, d[k as int], n as int)));
            assert(ids[q] == srows[q].id);
            assert(ids[q] == d[k as int]);
            assert(entry.id == d[k as int]);
            assert(p == q);
            assert(srows[p].id == entry.id);
            assert(orig[p].song.id is Some);
            assert(srows[p].id == orig[p].song.id->0);
            assert(orig[p].song.id == Some(entry.id));
            assert(!row_fails(orig, counts@, p));
            if seen_before(orig, entry.id, p) {
                let j = choose|j: int| 0 <= j < p && (#[trigger] orig[j]).song.id == Some(entry.id);
                assert(ids[j] == entry.id);
                lemma_first_in_at_most(ids, entry.id, n as int, j);
            }
        }
        let plays = match find_plays(&counts, entry.id) {
            Some(c) => c,
            None => 0,
        };
        pairs.push((plays, entry));
        assert(pairs@.map_values(|p: (i64, frontend::Song)| p.1) =~= m.subrange(0, k + 1));
        k = k + 1;
    }
    let ghost pm = pairs@;
    assert(pm.map_values(|p: (i64, frontend::Song)| p.1) =~= m);
    let out = sort_by_rank(pairs);
    proof {
        lemma_pairs_by_count(out@);
        broadcast use vstd::seq_lib::group_to_multiset_ensures;

        lemma_reordered_merge(srows, pm, out@, |p: (i64, frontend::Song)| p.1);
        assert forall|j: int| 0 <= j < out@.len() implies (#[trigger] out@[j]).0 == plays_of(
            counts@,
            out@[j].1.id,
            counts@.len() as int,
        ) by {
            assert(out@.contains(out@[j]));
            assert(out@.to_multiset().count(out@[j]) > 0);
            assert(pm.contains(out@[j]));
        }
    }
    Ok(out)
}

/// A failure among the first rows stays the first failure among more.
proof fn lemma_first_failure_stable(rows: Seq<SongQueryRow>, counts: Seq<(i32, i64)>, k: int, n: int)
    requires
        0 <= k <= n <= rows.len(),
        first_failure(rows, counts, k) < k,
    ensures
        first_failure(rows, counts, n) == first_failure(rows, counts, k),
    decreases n - k,
{
    if k < n {
        lemma_first_failure_stable(rows, counts, k + 1, n);
    }
}

/// The first failure among more rows is the first among fewer, when it lies
/// among the fewer.
proof fn lemma_first_failure_prefix(rows: Seq<SongQueryRow>, counts: Seq<(i32, i64)>, k: int, n: int)
    requires
        0 <= k <= n <= rows.len(),
        first_failure(rows, counts, n) == n,
    ensures
        first_failure(rows, counts, k) == k,
    decreases n - k,
{
    lemma_first_failure_bounds(rows, counts, n);
    if k < n {
        lemma_first_failure_prefix(rows, counts, k + 1, n);
        lemma_first_failure_bounds(rows, counts, k);
    }
}

/// A row of a listening-history query: a listen, its song, the song's album
/// (if it has one), one of the song's artists, and the viewing user's like
/// and dislike.
pub struct HistorySongRow {
    /// The listen.
    pub history: backend::HistoryEntry,
    /// The song listened to.
    pub song: backend::Song,
    /// The song's album, if it has one.
    pub album: Option<backend::Album>,
    /// One of the song's artists, if it has any.
    pub artist: Option<backend::Artist>,
    /// Whether the viewing user likes the song.
    pub liked: bool,
    /// Whether the viewing user dislikes the song.
    pub disliked: bool,
}

/// The song rows of a history query, under the song ids of their listens.
pub open spec fn history_song_rows(rows: Seq<HistorySongRow>) -> Seq<SongRow> {
    rows.map_values(
        |r: HistorySongRow|
            SongRow {
                id: r.history.song_id,
                song: r.song,
                album: r.album,
                artist: r.artist,
                liked: r.liked,
                disliked: r.disliked,
            },
    )
}

/// The position of the first of `pairs` whose id is `id`.
fn first_pair_with(pairs: &Vec<(i32, i64)>, id: i32) -> (r: usize)
    requires
        exists|j: int| 0 <= j < pairs@.len() && (#[trigger] pairs@[j]).0 == id,
    ensures
        r < pairs@.len(),
        pairs@[r as int].0 == id,
        forall|j: int| 0 <= j < r ==> (#[trigger] pairs@[j]).0 != id,
{
    let mut j: usize = 0;
    while j < pairs.len()
        invariant
            j <= pairs@.len(),
            forall|jj: int| 0 <= jj < j ==> (#[trigger] pairs@[jj]).0 != id,
            exists|jj: int| 0 <= jj < pairs@.len() && (#[trigger] pairs@[jj]).0 == id,
        decreases pairs@.len() - j,
    {
        if pairs[j].0 == id {
            return j;
        }
        j = j + 1;
    }
    j
}

/// Recently played songs, from the rows of a history query (most recent
/// listens first): one entry per song, made from the song's first row, with
/// the artists of all its rows, each with the date of the song's first row,
/// most recent first.
pub fn recent_songs(rows: Vec<HistorySongRow>) -> (out: Vec<(i64, frontend::Song)>)
    requires
        first_rows_dated(history_song_rows(rows@)),
    ensures
        grouped(history_song_rows(rows@), out@.map_values(|p: (i64, frontend::Song)| p.1)),
        forall|j: int|
            0 <= j < out@.len() ==> (#[trigger] out@[j]).0 == rows@[first_in(
                row_ids(history_song_rows(rows@)),
                out@[j].1.id,
                rows@.len() as int,
            )].history.date,
        ranked_order(out@),
        forall|a: int, b: int| 0 <= a < b < out@.len() ==> out@[a].0 >= out@[b].0,
{
    let ghost orig = rows@;
    let ghost srows = history_song_rows(orig);
    let ghost ids = row_ids(srows);
    let n = rows.len();
    let mut rows = rows;
    let mut song_rows: Vec<SongRow> = Vec::new();
    let mut dates: Vec<(i32, i64)> = Vec::new();
    let mut i: usize = 0;
    while i < n
        invariant
            n == orig.len(),
            i <= n,
            rows@ == orig.subrange(i as int, n as int),
            song_rows@ == srows.subrange(0, i as int),
            srows == history_song_rows(orig),
            dates@.len() == i,
            forall|k: int| 0 <= k < i ==> (#[trigger] dates@[k]) == (orig[k].history.song_id, orig[k].history.date),
        decreases n - i,
    {
        let row = rows.remove(0);
        assert(row == orig[i as int]);
        let HistorySongRow { history, song, album, artist, liked, disliked } = row;
        dates.push((history.song_id, history.date));
        song_rows.push(SongRow { id: history.song_id, song, album, artist, liked, disliked });
        assert(song_rows@ =~= srows.subrange(0, i + 1));
        i = i + 1;
    }
    assert(song_rows@ =~= srows);
    let mut merged_rows = merge_song_rows(song_rows);
    let ghost m = merged_rows@;
    let mut pairs: Vec<(i64, frontend::Song)> = Vec::new();
    let mut k: usize = 0;
    let total = merged_rows.len();
    while k < total
        invariant
            total == m.len(),
            k <= total,
            merged_rows@ == m.subrange(k as int, total as int),
            merged(srows, n as int, m),
            pairs@.map_values(|p: (i64, frontend::Song)| p.1) == m.subrange(0, k as int),
            pairs@.len() == k,
            forall|j: int|
                0 <= j < k ==> (#[trigger] pairs@[j]).0 == orig[first_in(ids, pairs@[j].1.id, n as int)].history.date,
            srows == history_song_rows(orig),
            ids == row_ids(srows),
            n == orig.len(),
            srows.len() == n,
            dates@.len() == n,
            forall|kk: int| 0 <= kk < n ==> (#[trigger] dates@[kk]) == (orig[kk].history.song_id, orig[kk].history.date),
        decreases total - k,
    {
        let entry = merged_rows.remove(0);
        assert(entry == m[k as int]);
        let ghost p = first_in(ids, entry.id, n as int);
        proof {
            lemma_distinct_ids(ids, n as int);
            let d = distinct_ids(ids, n as int);
            let q = first_in(ids, d[k as int], n as int);
            assert(entry_matches(m[k as int], srows[q], artists_of(srows, d[k as int], n as int)));
            assert(ids[q] == srows[q].id);
            assert(entry.id == d[k as int]);
            assert(p == q);
            assert(dates@[p].0 == entry.id);
        }
        let j = first_pair_with(&dates, entry.id);
        proof {
            assert(ids[j as int] == dates@[j as int].0);
            lemma_first_in_at_most(ids, entry.id, n as int, j as int);
            if p < j {
                assert(dates@[p].0 == ids[p]);
            }
        }
        let date = dates[j].1;
        pairs.push((date, entry));
        assert(pairs@.map_values(|p: (i64, frontend::Song)| p.1) =~= m.subrange(0, k + 1));
        k = k + 1;
    }
    let ghost pm = pairs@;
    assert(pm.map_values(|p: (i64, frontend::Song)| p.1) =~= m);
    let out = sort_by_rank(pairs);
    proof {
        lemma_pairs_by_count(out@);
        broadcast use vstd::seq_lib::group_to_multiset_ensures;

        lemma_reordered_merge(srows, pm, out@, |p: (i64, frontend::Song)| p.1);
        assert forall|j: int| 0 <= j < out@.len() implies (#[trigger] out@[j]).0 == orig[first_in(
            ids,
            out@[j].1.id,
            n as int,
        )].history.date by {
            assert(out@.contains(out@[j]));
            assert(out@.to_multiset().count(out@[j]) > 0);
            assert(pm.contains(out@[j]));
        }
    }
    out
}

/// The artists of the first `k` rows of a song query, in row order.
pub open spec fn query_artists(rows: Seq<SongQueryRow>, k: int) -> Seq<backend::Artist>
    decreases k,
{
    if k <= 0 {
        Seq::empty()
    } else if rows[k - 1].artist is Some {
        query_artists(rows, k - 1).push(rows[k - 1].artist->0)
    } else {
        query_artists(rows, k - 1)
    }
}

/// A song, from the rows of its query: nothing when there are no rows;
/// otherwise the song of the first row, with the artists of all the rows and
/// the like and dislike of the first row.
pub fn song_from_rows(rows: Vec<SongQueryRow>) -> (r: Option<frontend::Song>)
    requires
        rows@.len() > 0 ==> rows@[0].song.id is Some && rows@[0].song.added_date is Some,
    ensures
        r is None <==> rows@.len() == 0,
        r matches Some(s) ==> {
            let f = rows@[0];
            &&& s.id == f.song.id->0
            &&& s.title == f.song.title
            &&& s.artists@ == query_artists(rows@, rows@.len() as int)
            &&& s.album == f.album
            &&& s.track == f.song.track
            &&& s.duration == f.song.duration
            &&& s.release_date == f.song.release_date
            &&& s.song_path == f.song.storage_path
            &&& s.image_path@ == song_image(f.song, f.album)
            &&& s.like_dislike == Some((f.liked, f.disliked))
            &&& s.added_date == f.song.added_date->0
        },
{
    if rows.len() == 0 {
        return None;
    }
    let ghost orig = rows@;
    let n = rows.len();
    let mut rows = rows;
    let first = rows.remove(0);
    assert(first == orig[0]);
    assert(query_artists(orig, 0) =~= Seq::<backend::Artist>::empty());
    let SongQueryRow { song, album, artist, liked, disliked } = first;
    let mut artists: Vec<backend::Artist> = Vec::new();
    match artist {
        Some(a) => artists.push(a),
        None => {},
    }
    assert(artists@ =~= query_artists(orig, 1));
    let mut i: usize = 1;
    while i < n
        invariant
            n == orig.len(),
            1 <= i <= n,
            rows@ == orig.subrange(i as int, n as int),
            artists@ == query_artists(orig, i as int),
        decreases n - i,
    {
        let row = rows.remove(0);
        assert(row == orig[i as int]);
        match row.artist {
            Some(a) => artists.push(a),
            None => {},
        }
        i = i + 1;
    }
    let image_path = song_image_path(song.image_path, &album);
    let id = match song.id {
        Some(id) => id,
        None => 0,
    };
    let added_date = match song.added_date {
        Some(d) => d,
        None => 0,
    };
    Some(frontend::Song {
        id,
        title: song.title,
        artists,
        album,
        track: song.track,
        duration: song.duration,
        release_date: song.release_date,
        song_path: song.storage_path,
        image_path,
        like_dislike: Some((liked, disliked)),
        added_date,
    })
}

} // verus!

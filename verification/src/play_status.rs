//! The state of the player: the queue of songs to play (the current song at
//! its front), the history of songs played (the latest at its back), and the
//! flags of the play bar; and how the player's controls change it.

use vstd::prelude::*;
use std::collections::VecDeque;
use crate::models::frontend::Song;
use crate::models::backend::{Artist, artist_names, display_names};

verus! {

/// The state of the player.
pub struct PlayStatus {
    /// Whether a song is playing.
    pub playing: bool,
    /// Whether the queue panel is open.
    pub queue_open: bool,
    /// Whether the search bar has the focus.
    pub search_active: bool,
    /// The songs played, the latest at the back.
    pub history: VecDeque<Song>,
    /// The songs to play, the current one at the front.
    pub queue: VecDeque<Song>,
}

/// What the player's state is, as a mathematical value.
pub struct PlayStatusView {
    pub playing: bool,
    pub queue_open: bool,
    pub search_active: bool,
    pub history: Seq<Song>,
    pub queue: Seq<Song>,
}

impl View for PlayStatus {
    type V = PlayStatusView;

    open spec fn view(&self) -> PlayStatusView {
        PlayStatusView {
            playing: self.playing,
            queue_open: self.queue_open,
            search_active: self.search_active,
            history: self.history@,
            queue: self.queue@,
        }
    }
}

/// The state after the current song ends: it moves from the front of the
/// queue to the back of the history (nothing changes when the queue is empty).
pub open spec fn after_song_ended(s: PlayStatusView) -> PlayStatusView {
    if s.queue.len() == 0 {
        s
    } else {
        PlayStatusView { history: s.history.push(s.queue[0]), queue: s.queue.drop_first(), ..s }
    }
}

/// The state after going back to the previous song: the latest song of the
/// history moves to the front of the queue (nothing changes when the history
/// is empty).
pub open spec fn after_previous(s: PlayStatusView) -> PlayStatusView {
    if s.history.len() == 0 {
        s
    } else {
        PlayStatusView { history: s.history.drop_last(), queue: seq![s.history.last()] + s.queue, ..s }
    }
}

/// The state after the queue panel's button is pressed: the panel opens if
/// it was closed and closes if it was open.
pub open spec fn after_queue_toggled(s: PlayStatusView) -> PlayStatusView {
    PlayStatusView { queue_open: !s.queue_open, ..s }
}

/// A user's like and dislike of a song after the like button is pressed:
/// the like flips, and a like clears the dislike. A song with no known state
/// becomes liked.
pub open spec fn after_like_pressed(ld: Option<(bool, bool)>) -> (bool, bool) {
    match ld {
        Some((l, d)) => (!l, if !l { false } else { d }),
        None => (true, false),
    }
}

/// A user's like and dislike of a song after the dislike button is pressed:
/// the dislike flips, and a dislike clears the like. A song with no known
/// state becomes disliked.
pub open spec fn after_dislike_pressed(ld: Option<(bool, bool)>) -> (bool, bool) {
    match ld {
        Some((l, d)) => (if !d { false } else { l }, !d),
        None => (false, true),
    }
}

/// A request to record a user's like or dislike of a song.
#[derive(Clone, Copy, Debug, PartialEq, Eq, Structural)]
pub struct Preference {
    /// The song.
    pub song_id: i32,
    /// Whether the song is now liked (or disliked).
    pub value: bool,
}

impl PlayStatus {
    /// A player with nothing queued, nothing played, and nothing playing.
    pub fn new() -> (s: PlayStatus)
        ensures
            s@ == (PlayStatusView {
                playing: false,
                queue_open: false,
                search_active: false,
                history: Seq::empty(),
                queue: Seq::empty(),
            }),
    {
        PlayStatus {
            playing: false,
            queue_open: false,
            search_active: false,
            history: VecDeque::new(),
            queue: VecDeque::new(),
        }
    }

    /// The current song has ended: it moves to the history.
    pub fn song_ended(&mut self)
        ensures
            final(self)@ == after_song_ended(old(self)@),
    {
        match self.queue.pop_front() {
            Some(prev_song) => {
                self.history.push_back(prev_song);
            },
            None => {},
        }
        proof {
            assert(old(self)@.queue.len() > 0 ==> final(self)@.queue =~= old(self)@.queue.drop_first());
        }
    }

    /// Goes back to the previous song: the latest song of the history moves
    /// to the front of the queue. Returns whether there was one.
    pub fn previous_song(&mut self) -> (moved: bool)
        ensures
            final(self)@ == after_previous(old(self)@),
            moved == (old(self)@.history.len() > 0),
    {
        match self.history.pop_back() {
            Some(last_played_song) => {
                self.queue.push_front(last_played_song);
                proof {
                    assert(final(self)@.history =~= old(self)@.history.drop_last());
                }
                true
            },
            None => false,
        }
    }

    /// Opens the queue panel if it is closed, and closes it if it is open.
    pub fn toggle_queue(&mut self)
        ensures
            final(self)@ == after_queue_toggled(old(self)@),
    {
        self.queue_open = !self.queue_open;
    }

    /// The search bar gains (`true`) or loses (`false`) the focus.
    pub fn set_search_active(&mut self, active: bool)
        ensures
            final(self)@ == (PlayStatusView { search_active: active, ..old(self)@ }),
    {
        self.search_active = active;
    }

    /// Plays a song from its page: when it is the current song, playing and
    /// pausing toggle; otherwise the queue becomes that song alone, playing.
    pub fn play_song(&mut self, song: Song)
        ensures
            old(self)@.queue.len() > 0 && old(self)@.queue[0].id == song.id ==> final(self)@ == (
            PlayStatusView { playing: !old(self)@.playing, ..old(self)@ }),
            !(old(self)@.queue.len() > 0 && old(self)@.queue[0].id == song.id) ==> final(self)@ == (
            PlayStatusView { playing: true, queue: seq![song], ..old(self)@ }),
    {
        if self.queue.len() > 0 && self.queue[0].id == song.id {
            self.playing = !self.playing;
        } else {
            self.queue.clear();
            self.queue.push_front(song);
            self.playing = true;
            proof {
                assert(self.queue@ =~= seq![song]);
            }
        }
    }

    /// Whether the song with this id is the current song and is playing.
    pub fn is_playing_song(&self, song_id: i32) -> (r: bool)
        ensures
            r == (self@.queue.len() > 0 && self@.queue[0].id == song_id && self@.playing),
    {
        self.queue.len() > 0 && self.queue[0].id == song_id && self.playing
    }

    /// The like button of the play bar: the current song's like flips, and a
    /// like clears its dislike. Returns the request to record the new like,
    /// or nothing when no song is queued.
    pub fn press_like(&mut self) -> (r: Option<Preference>)
        ensures
            old(self)@.queue.len() == 0 ==> r is None && final(self)@ == old(self)@,
            old(self)@.queue.len() > 0 ==> {
                let cur = old(self)@.queue[0];
                let ld = after_like_pressed(cur.like_dislike);
                &&& r == Some(Preference { song_id: cur.id, value: ld.0 })
                &&& final(self)@ == (PlayStatusView {
                    queue: old(self)@.queue.update(0, Song { like_dislike: Some(ld), ..cur }),
                    ..old(self)@
                })
            },
            old(self)@.queue.len() > 0 ==> {
                let was_liked = old(self)@.queue[0].like_dislike matches Some((true, _));
                let was_disliked = old(self)@.queue[0].like_dislike matches Some((_, true));
                &&& r matches Some(p) && p.song_id == old(self)@.queue[0].id && p.value == !was_liked
                &&& final(self)@.queue[0].like_dislike matches Some((l, d)) && l == !was_liked && (l
                    ==> !d) && (!l ==> d == was_disliked)
            },
    {
        match self.queue.pop_front() {
            Some(mut song) => {
                let ld = match song.like_dislike {
                    Some((liked, disliked)) => {
                        let liked = !liked;
                        (liked, if liked { false } else { disliked })
                    },
                    None => (true, false),
                };
                song.like_dislike = Some(ld);
                let id = song.id;
                self.queue.push_front(song);
                proof {
                    assert(self.queue@ =~= old(self)@.queue.update(0, song));
                }
                Some(Preference { song_id: id, value: ld.0 })
            },
            None => None,
        }
    }

    /// The dislike button of the play bar: the current song's dislike flips,
    /// and a dislike clears its like. Returns the request to record the new
    /// dislike, or nothing when no song is queued.
    pub fn press_dislike(&mut self) -> (r: Option<Preference>)
        ensures
            old(self)@.queue.len() == 0 ==> r is None && final(self)@ == old(self)@,
            old(self)@.queue.len() > 0 ==> {
                let cur = old(self)@.queue[0];
                let ld = after_dislike_pressed(cur.like_dislike);
                &&& r == Some(Preference { song_id: cur.id, value: ld.1 })
                &&& final(self)@ == (PlayStatusView {
                    queue: old(self)@.queue.update(0, Song { like_dislike: Some(ld), ..cur }),
                    ..old(self)@
                })
            },
            old(self)@.queue.len() > 0 ==> {
                let was_liked = old(self)@.queue[0].like_dislike matches Some((true, _));
                let was_disliked = old(self)@.queue[0].like_dislike matches Some((_, true));
                &&& r matches Some(p) && p.song_id == old(self)@.queue[0].id && p.value == !was_disliked
                &&& final(self)@.queue[0].like_dislike matches Some((l, d)) && d == !was_disliked && (d
                    ==> !l) && (!d ==> l == was_liked)
            },
    {
        match self.queue.pop_front() {
            Some(mut song) => {
                let ld = match song.like_dislike {
                    Some((liked, disliked)) => {
                        let disliked = !disliked;
                        (if disliked { false } else { liked }, disliked)
                    },
                    None => (false, true),
                };
                song.like_dislike = Some(ld);
                let id = song.id;
                self.queue.push_front(song);
                proof {
                    assert(self.queue@ =~= old(self)@.queue.update(0, song));
                }
                Some(Preference { song_id: id, value: ld.1 })
            },
            None => None,
        }
    }
}

impl PlayStatus {
    /// The id of the current song, if any.
    pub fn current_song_id(&self) -> (r: Option<i32>)
        ensures
            r == (if self@.queue.len() > 0 { Some(self@.queue[0].id) } else { None::<i32> }),
    {
        if self.queue.len() > 0 {
            Some(self.queue[0].id)
        } else {
            None
        }
    }

    /// The audio file of the current song, if any.
    pub fn current_song_path(&self) -> (r: Option<String>)
        ensures
            r is Some <==> self@.queue.len() > 0,
            r matches Some(p) ==> p@ == self@.queue[0].song_path@,
    {
        if self.queue.len() > 0 {
            Some(self.queue[0].song_path.clone())
        } else {
            None
        }
    }

    /// The name shown for the current song: its title, or "No media playing".
    pub fn media_name(&self) -> (r: String)
        ensures
            r@ == (if self@.queue.len() > 0 { self@.queue[0].title@ } else { "No media playing"@ }),
    {
        if self.queue.len() > 0 {
            self.queue[0].title.clone()
        } else {
            String::from_str("No media playing")
        }
    }

    /// The artists shown for the current song, or nothing.
    pub fn media_artists(&self) -> (r: String)
        ensures
            r@ == (if self@.queue.len() > 0 {
                display_names(artist_names(self@.queue[0].artists@))
            } else {
                Seq::<char>::empty()
            }),
    {
        if self.queue.len() > 0 {
            Artist::display_list(self.queue[0].artists.as_slice())
        } else {
            String::new()
        }
    }

    /// The album shown for the current song: its title, or nothing.
    pub fn media_album(&self) -> (r: String)
        ensures
            r@ == (if self@.queue.len() > 0 && self@.queue[0].album is Some {
                self@.queue[0].album->0.title@
            } else {
                Seq::<char>::empty()
            }),
    {
        if self.queue.len() > 0 {
            match &self.queue[0].album {
                Some(album) => album.title.clone(),
                None => String::new(),
            }
        } else {
            String::new()
        }
    }

    /// The image shown for the current song: its image, or a placeholder.
    pub fn media_image(&self) -> (r: String)
        ensures
            r@ == (if self@.queue.len() > 0 {
                self@.queue[0].image_path@
            } else {
                "/images/placeholders/MusicPlaceholder.svg"@
            }),
    {
        if self.queue.len() > 0 {
            self.queue[0].image_path.clone()
        } else {
            String::from_str("/images/placeholders/MusicPlaceholder.svg")
        }
    }

    /// The title of the page: "title - artists | LibreTunes" while a song
    /// is queued, else "LibreTunes".
    pub fn page_title(&self) -> (r: String)
        ensures
            r@ == (if self@.queue.len() > 0 {
                self@.queue[0].title@ + " - "@ + display_names(artist_names(self@.queue[0].artists@))
                    + " | "@ + "LibreTunes"@
            } else {
                "LibreTunes"@
            }),
    {
        if self.queue.len() > 0 {
            let mut t = self.queue[0].title.clone();
            t.append(" - ");
            let artists = Artist::display_list(self.queue[0].artists.as_slice());
            t.append(artists.as_str());
            t.append(" | ");
            t.append("LibreTunes");
            t
        } else {
            String::from_str("LibreTunes")
        }
    }
}

/// A song list's like and dislike after the like button: the like flips,
/// and the dislike stays only if the song is no longer liked.
pub open spec fn list_like_pressed(liked: bool, disliked: bool) -> (bool, bool) {
    (!liked, disliked && liked)
}

/// A song list's like and dislike after the dislike button: the dislike
/// flips, and the like stays only if the song is no longer disliked.
pub open spec fn list_dislike_pressed(liked: bool, disliked: bool) -> (bool, bool) {
    (liked && disliked, !disliked)
}

/// The like and dislike of a song in a song list after its like button is
/// pressed: the like flips, and a like clears the dislike.
pub fn press_like_in_list(liked: bool, disliked: bool) -> (r: (bool, bool))
    ensures
        r == list_like_pressed(liked, disliked),
{
    let liked = !liked;
    let disliked = disliked && !liked;
    (liked, disliked)
}

/// The like and dislike of a song in a song list after its dislike button
/// is pressed: the dislike flips, and a dislike clears the like.
pub fn press_dislike_in_list(liked: bool, disliked: bool) -> (r: (bool, bool))
    ensures
        r == list_dislike_pressed(liked, disliked),
{
    let disliked = !disliked;
    let liked = liked && !disliked;
    (liked, disliked)
}

/// One step of the listen tracker: the last song reported afterwards, and
/// the song to report now. The current song is reported when there is one
/// and it is not the last one reported.
pub open spec fn listen_step(last: Option<i32>, current: Option<i32>) -> (Option<i32>, Option<i32>) {
    if last == current {
        (last, None)
    } else {
        match current {
            Some(id) => (Some(id), Some(id)),
            None => (last, None),
        }
    }
}

/// Records when the current song has been listened to long enough to enter
/// the user's history, so that each song is reported once while it stays
/// current.
pub struct ListenTracker {
    /// The last song reported.
    pub last: Option<i32>,
}

impl ListenTracker {
    /// A tracker that has reported nothing.
    pub fn new() -> (t: ListenTracker)
        ensures
            t.last is None,
    {
        ListenTracker { last: None }
    }

    /// The listening threshold has passed with `current` as the current song:
    /// returns the song to add to the history, if it was not the last one
    /// reported.
    pub fn listened(&mut self, current: Option<i32>) -> (r: Option<i32>)
        ensures
            (final(self).last, r) == listen_step(old(self).last, current),
    {
        if self.last == current {
            return None;
        }
        match current {
            Some(id) => {
                self.last = Some(id);
                Some(id)
            },
            None => None,
        }
    }
}

/// Ending a song and then going back to the previous one restores the
/// queue and the history, when a song was queued.
pub proof fn law_previous_undoes_song_ended(s: PlayStatusView)
    requires
        s.queue.len() > 0,
    ensures
        after_previous(after_song_ended(s)) == s,
{
    assert(seq![s.queue[0]] + s.queue.drop_first() =~= s.queue);
    assert(s.history.push(s.queue[0]).drop_last() =~= s.history);
}

/// Going back to the previous song and then ending it restores the queue
/// and the history, when a song had been played.
pub proof fn law_song_ended_undoes_previous(s: PlayStatusView)
    requires
        s.history.len() > 0,
    ensures
        after_song_ended(after_previous(s)) == s,
{
    assert((seq![s.history.last()] + s.queue).drop_first() =~= s.queue);
    assert(s.history.drop_last().push(s.history.last()) =~= s.history);
}

/// No song is both liked and disliked after the like or the dislike button
/// is pressed.
pub proof fn law_never_liked_and_disliked(ld: Option<(bool, bool)>)
    ensures
        !(after_like_pressed(ld).0 && after_like_pressed(ld).1),
        !(after_dislike_pressed(ld).0 && after_dislike_pressed(ld).1),
{
}

/// A song list's buttons never leave a song both liked and disliked.
pub proof fn law_list_buttons_never_both(liked: bool, disliked: bool)
    ensures
        !(list_like_pressed(liked, disliked).0 && list_like_pressed(liked, disliked).1),
        !(list_dislike_pressed(liked, disliked).0 && list_dislike_pressed(liked, disliked).1),
{
}

/// The listen tracker reports a song at most once while it stays current:
/// after a report, the same current song is not reported again.
pub proof fn law_listen_reported_once(last: Option<i32>, current: Option<i32>)
    ensures
        listen_step(listen_step(last, current).0, current).1 is None,
{
}

/// Pressing the queue panel's button twice leaves the player as it was.
pub proof fn law_toggle_queue_twice(s: PlayStatusView)
    ensures
        after_queue_toggled(after_queue_toggled(s)) == s,
{
}

/// The play bar's like button likes a song that was not liked (clearing
/// its dislike) and takes back the like of a song that was, leaving its
/// dislike as it was; the dislike button does the same with the dislike.
pub proof fn law_buttons_flip_their_flag(ld: Option<(bool, bool)>)
    ensures
        ({
            let was_liked = ld matches Some((true, _));
            let was_disliked = ld matches Some((_, true));
            let a = after_like_pressed(ld);
            let b = after_dislike_pressed(ld);
            &&& a.0 == !was_liked
            &&& a.0 ==> !a.1
            &&& !a.0 ==> a.1 == was_disliked
            &&& b.1 == !was_disliked
            &&& b.1 ==> !b.0
            &&& !b.1 ==> b.0 == was_liked
        }),
{
}

/// A song list's like button flips the like and clears the dislike when it
/// likes; its dislike button flips the dislike and clears the like when it
/// dislikes.
pub proof fn law_list_buttons_flip_their_flag(liked: bool, disliked: bool)
    ensures
        list_like_pressed(liked, disliked).0 == !liked,
        list_like_pressed(liked, disliked).0 ==> !list_like_pressed(liked, disliked).1,
        !list_like_pressed(liked, disliked).0 ==> list_like_pressed(liked, disliked).1 == disliked,
        list_dislike_pressed(liked, disliked).1 == !disliked,
        list_dislike_pressed(liked, disliked).1 ==> !list_dislike_pressed(liked, disliked).0,
        !list_dislike_pressed(liked, disliked).1 ==> list_dislike_pressed(liked, disliked).0 == liked,
{
}

/// When a song ends, it leaves the front of the queue and becomes the
/// latest song of the history; the other songs stay in their places and the
/// flags are unchanged. Going back takes the latest song of the history to
/// the front of the queue.
pub proof fn law_song_moves_between_queue_and_history(s: PlayStatusView)
    ensures
        s.queue.len() > 0 ==> {
            let e = after_song_ended(s);
            &&& e.history.len() == s.history.len() + 1
            &&& e.history[e.history.len() - 1] == s.queue[0]
            &&& e.history.subrange(0, s.history.len() as int) == s.history
            &&& e.queue.len() == s.queue.len() - 1
            &&& forall|i: int| 0 <= i < e.queue.len() ==> e.queue[i] == s.queue[i + 1]
            &&& e.playing == s.playing && e.queue_open == s.queue_open
        },
        s.history.len() > 0 ==> {
            let p = after_previous(s);
            &&& p.queue.len() == s.queue.len() + 1
            &&& p.queue[0] == s.history[s.history.len() - 1]
            &&& forall|i: int| 0 <= i < s.queue.len() ==> p.queue[i + 1] == s.queue[i]
            &&& p.history == s.history.subrange(0, s.history.len() - 1)
        },
        s.queue.len() == 0 ==> after_song_ended(s) == s,
        s.history.len() == 0 ==> after_previous(s) == s,
{
    if s.queue.len() > 0 {
        assert(after_song_ended(s).history.subrange(0, s.history.len() as int) =~= s.history);
    }
    if s.history.len() > 0 {
        assert(after_previous(s).history =~= s.history.subrange(0, s.history.len() - 1));
    }
}

/// The listen tracker reports a current song that it did not report last,
/// and never reports anything when no song is current.
pub proof fn law_listen_reports_new_song(last: Option<i32>, current: Option<i32>)
    ensures
        current is Some && last != current ==> listen_step(last, current).1 == current
            && listen_step(last, current).0 == current,
        current is None ==> listen_step(last, current).1 is None,
        last == current ==> listen_step(last, current).1 is None,
{
}

} // verus!

//! The play queue: the tracks waiting to be played and the position of the
//! one that plays.
use vstd::prelude::*;

use crate::model::{Album, Trackinfo};
use crate::text::{chars_of, push_all, string_from_chars};

verus! {

broadcast use vstd::string::group_string_axioms;

/// A track in the queue.
pub struct QueuedTrack {
    pub title: String,
    pub artist: String,
    pub album: String,
    /// The URL of the audio stream.
    pub audio_url: String,
    /// The URL of the album page.
    pub album_url: String,
    /// The length of the track in whole seconds (not known yet: 0).
    pub duration: u64,
}

impl Clone for QueuedTrack {
    fn clone(&self) -> (r: Self)
        ensures
            r == *self,
    {
        QueuedTrack {
            title: self.title.clone(),
            artist: self.artist.clone(),
            album: self.album.clone(),
            audio_url: self.audio_url.clone(),
            album_url: self.album_url.clone(),
            duration: self.duration,
        }
    }
}

impl Default for QueuedTrack {
    fn default() -> (r: Self)
        ensures
            r.title@ == Seq::<char>::empty() && r.artist@ == Seq::<char>::empty() && r.album@
                == Seq::<char>::empty() && r.audio_url@ == Seq::<char>::empty()
                && r.album_url@ == Seq::<char>::empty() && r.duration == 0,
    {
        QueuedTrack {
            title: String::new(),
            artist: String::new(),
            audio_url: String::new(),
            album: String::new(),
            album_url: String::new(),
            duration: 0,
        }
    }
}

/// The text of an optional string, or `default` when there is none.
pub open spec fn text_or(s: Option<String>, default: Seq<char>) -> Seq<char> {
    match s {
        Some(v) => v@,
        None => default,
    }
}

/// A track can be queued unless it is marked unreleased and has no file.
pub open spec fn queueable(track: Trackinfo) -> bool {
    !(match track.unreleased_track {
        Some(b) => b,
        None => false,
    }) || track.file is Some
}

/// The queue entry made of `track` of `album`: the title, artist and album
/// name with their stand-ins when missing, the stream URL (empty when the
/// file has none) and the album URL (bandcamp.com when missing).
pub open spec fn entry_matches(q: QueuedTrack, track: Trackinfo, album: Album) -> bool {
    &&& q.title@ == text_or(track.title, "Unknown title"@)
    &&& q.artist@ == text_or(album.current.artist, "Unknown artist"@)
    &&& q.album@ == text_or(album.current.title, "Unknown album name"@)
    &&& q.audio_url@ == (match track.file {
        Some(f) => text_or(f.mp3128, Seq::empty()),
        None => Seq::empty(),
    })
    &&& q.album_url@ == text_or(album.url, "https://bandcamp.com"@)
    &&& q.duration == 0
}

fn text_or_default(s: &Option<String>, default: &str) -> (r: String)
    ensures
        r@ == text_or(*s, default@),
{
    match s {
        Some(v) => v.clone(),
        None => default.to_string(),
    }
}

/// The text of the queue entry, `artist - title`.
pub open spec fn entry_text(q: QueuedTrack) -> Seq<char> {
    q.artist@ + " - "@ + q.title@
}

impl QueuedTrack {
    /// The queue entry of `track`, or `None` when the track is unreleased
    /// and has no file.
    pub fn new(track: &Trackinfo, album: &Album) -> (r: Option<Self>)
        requires
            queueable(*track) ==> track.file is Some,
        ensures
            r is Some <==> queueable(*track),
            r matches Some(q) ==> entry_matches(q, *track, *album),
    {
        let unreleased = match track.unreleased_track {
            Some(b) => b,
            None => false,
        };
        if !unreleased || track.file.is_some() {
            proof {
                reveal_strlit("");
            }
            let audio_url = match &track.file {
                Some(f) => text_or_default(&f.mp3128, ""),
                None => String::new(),
            };
            let title = text_or_default(&track.title, "Unknown title");
            let artist = text_or_default(&album.current.artist, "Unknown artist");
            let album_name = text_or_default(&album.current.title, "Unknown album name");
            let album_url = text_or_default(&album.url, "https://bandcamp.com");
            let q = QueuedTrack {
                title,
                artist,
                audio_url,
                album: album_name,
                album_url,
                duration: 0,
            };
            assert(q.title@ == text_or(track.title, "Unknown title"@));
            assert(q.artist@ == text_or(album.current.artist, "Unknown artist"@));
            assert(q.album@ == text_or(album.current.title, "Unknown album name"@));
            assert(q.album_url@ == text_or(album.url, "https://bandcamp.com"@));
            assert(q.audio_url@ == (match track.file {
                Some(f) => text_or(f.mp3128, Seq::empty()),
                None => Seq::empty(),
            }));
            return Some(q);
        }
        None
    }

    /// The entry as `artist - title`.
    pub fn to_string(&self) -> (r: String)
        ensures
            r@ == entry_text(*self),
    {
        let mut out = chars_of(self.artist.as_str());
        let sep = chars_of(" - ");
        push_all(&mut out, &sep);
        let title = chars_of(self.title.as_str());
        push_all(&mut out, &title);
        string_from_chars(out.as_slice())
    }
}

/// Why an album could not be queued.
#[derive(Clone, Copy, Debug, PartialEq, Eq, Structural)]
pub enum QueueError {
    /// The album could not be loaded.
    NoAlbumData,
    /// The album has no track list.
    NoTrackList,
    /// A track has no stream, or the album has no tracks.
    NoTrackUrl,
}

/// The message of a queueing error.
pub open spec fn error_text(e: QueueError) -> Seq<char> {
    match e {
        QueueError::NoAlbumData => "Cannot get album data"@,
        QueueError::NoTrackList => "Unable to get tracklist"@,
        QueueError::NoTrackUrl => "Cannot get track URL!"@,
    }
}

impl QueueError {
    /// The message of the error.
    pub fn to_string(&self) -> (r: String)
        ensures
            r@ == error_text(*self),
    {
        match self {
            QueueError::NoAlbumData => "Cannot get album data".to_string(),
            QueueError::NoTrackList => "Unable to get tracklist".to_string(),
            QueueError::NoTrackUrl => "Cannot get track URL!".to_string(),
        }
    }
}

/// The tracks to play and the position of the current one.
pub struct Queue {
    pub queue: Vec<QueuedTrack>,
    pub shuffle: bool,
    pub queue_pos: usize,
}

/// The index of the first track of `tracks` that cannot be queued, if any.
pub open spec fn first_unqueueable(tracks: Seq<Trackinfo>) -> Option<int> {
    if exists|i: int| 0 <= i < tracks.len() && !queueable(#[trigger] tracks[i]) {
        Some(
            choose|i: int|
                0 <= i < tracks.len() && !queueable(#[trigger] tracks[i]) && forall|j: int|
                    0 <= j < i ==> queueable(#[trigger] tracks[j]),
        )
    } else {
        None
    }
}

/// Whether every track of `album` that can be queued has a stream file
/// (queueing a released track without one cannot be done).
pub open spec fn files_present(album: Album) -> bool {
    album.trackinfo matches Some(ts) ==> forall|i: int|
        0 <= i < ts.len() && queueable(#[trigger] ts@[i]) ==> ts@[i].file is Some
}

/// Whether queueing `album` succeeds: it has a non-empty track list whose
/// tracks can all be queued.
pub open spec fn album_add_succeeds(album: Album) -> bool {
    &&& album.trackinfo is Some
    &&& album.trackinfo->0@.len() > 0
    &&& first_unqueueable(album.trackinfo->0@) is None
}

/// The queue `after` is `before` with the tracks of `album` appended, up to
/// the first one that cannot be queued.
pub open spec fn album_added(before: Seq<QueuedTrack>, after: Seq<QueuedTrack>, album: Album) -> bool {
    &&& after.len() >= before.len()
    &&& after.subrange(0, before.len() as int) == before
    &&& forall|k: int|
        before.len() <= k < after.len() ==> entry_matches(
            #[trigger] after[k],
            album.trackinfo->0@[k - before.len()],
            album,
        )
    &&& match album.trackinfo {
        None => after == before,
        Some(ts) => if ts@.len() == 0 {
            after == before
        } else {
            match first_unqueueable(ts@) {
                None => after.len() == before.len() + ts@.len(),
                Some(i) => after.len() == before.len() + i,
            }
        },
    }
}

/// Whether every track of `album` that can be queued has a stream file.
pub fn album_files_present(album: &Album) -> (r: bool)
    ensures
        r == files_present(*album),
{
    match &album.trackinfo {
        None => true,
        Some(ts) => {
            let mut i: usize = 0;
            while i < ts.len()
                invariant
                    i <= ts.len(),
                    album.trackinfo == Some(*ts),
                    forall|j: int|
                        0 <= j < i && queueable(#[trigger] ts@[j]) ==> ts@[j].file is Some,
                decreases ts.len() - i,
            {
                let t = &ts[i];
                let unreleased = match t.unreleased_track {
                    Some(b) => b,
                    None => false,
                };
                if (!unreleased || t.file.is_some()) && t.file.is_none() {
                    return false;
                }
                i = i + 1;
            }
            true
        },
    }
}

impl Queue {
    /// An empty queue at position 0, shuffle off.
    pub fn new() -> (q: Self)
        ensures
            q.queue@ == Seq::<QueuedTrack>::empty(),
            !q.shuffle,
            q.queue_pos == 0,
    {
        Self { queue: Vec::new(), shuffle: false, queue_pos: 0 }
    }

    /// Moves to the next track and returns it. The last track is never
    /// reached this way: the move happens only while `queue_pos + 1` stays
    /// below `queue.len() - 1`.
    pub fn next(&mut self) -> (r: Option<QueuedTrack>)
        requires
            old(self).queue.len() >= 1,
            old(self).queue_pos + 1 <= usize::MAX,
        ensures
            final(self).queue == old(self).queue,
            final(self).shuffle == old(self).shuffle,
            match next_pos(old(self).queue_pos as int, old(self).queue.len() as int) {
                Some(p) => final(self).queue_pos == p && r == Some(old(self).queue@[p]),
                None => final(self).queue_pos == old(self).queue_pos && r is None,
            },
    {
        if self.queue_pos + 1 < self.queue.len() - 1 {
            self.queue_pos = self.queue_pos + 1;
            Some(self.queue[self.queue_pos].clone())
        } else {
            None
        }
    }

    /// Moves to the track at `idx` and returns it; `None` when there is no
    /// such track.
    pub fn set(&mut self, idx: usize) -> (r: Option<QueuedTrack>)
        ensures
            final(self).queue == old(self).queue,
            final(self).shuffle == old(self).shuffle,
            match set_pos(old(self).queue.len() as int, idx as int) {
                Some(p) => final(self).queue_pos == p && r == Some(old(self).queue@[p]),
                None => final(self).queue_pos == old(self).queue_pos && r is None,
            },
    {
        if idx < self.queue.len() {
            self.queue_pos = idx;
            Some(self.queue[self.queue_pos].clone())
        } else {
            None
        }
    }

    /// Moves to the previous track and returns it; `None` at the start.
    pub fn prev(&mut self) -> (r: Option<QueuedTrack>)
        requires
            old(self).queue_pos > 0 ==> old(self).queue_pos - 1 < old(self).queue.len(),
        ensures
            final(self).queue == old(self).queue,
            final(self).shuffle == old(self).shuffle,
            match prev_pos(old(self).queue_pos as int) {
                Some(p) => final(self).queue_pos == p && r == Some(old(self).queue@[p]),
                None => final(self).queue_pos == old(self).queue_pos && r is None,
            },
    {
        if self.queue_pos > 0 {
            self.queue_pos = self.queue_pos - 1;
            Some(self.queue[self.queue_pos].clone())
        } else {
            None
        }
    }

    /// The current track; `None` when the queue is empty.
    pub fn get_current_track(&mut self) -> (r: Option<QueuedTrack>)
        requires
            old(self).queue.len() > 0 ==> old(self).queue_pos < old(self).queue.len(),
        ensures
            *final(self) == *old(self),
            r == current_track(old(self).queue@, old(self).queue_pos as int),
    {
        if self.queue.len() > 0 {
            return Some(self.queue[self.queue_pos].clone());
        }
        None
    }

    /// Appends the tracks of `album`. Stops with `NoTrackList` when the
    /// album has no track list, with `NoTrackUrl` when the list is empty or at
    /// the first track that cannot be queued; the tracks before that one are
    /// queued already.
    pub fn add_album(&mut self, album: &Album) -> (r: core::result::Result<(), QueueError>)
        requires
            files_present(*album),
        ensures
            album_added(old(self).queue@, final(self).queue@, *album),
            r is Ok <==> album_add_succeeds(*album),
            final(self).queue_pos == old(self).queue_pos,
            final(self).shuffle == old(self).shuffle,
            final(self).queue@.len() >= old(self).queue@.len(),
            final(self).queue@.subrange(0, old(self).queue@.len() as int) == old(self).queue@,
            forall|k: int|
                old(self).queue@.len() <= k < final(self).queue@.len() ==> entry_matches(
                    #[trigger] final(self).queue@[k],
                    album.trackinfo->0@[k - old(self).queue@.len()],
                    *album,
                ),
            album.trackinfo is None ==> r == core::result::Result::<(), QueueError>::Err(
                QueueError::NoTrackList,
            ) && final(self).queue@ == old(self).queue@,
            album.trackinfo matches Some(ts) ==> {
                let tracks = ts@;
                &&& tracks.len() == 0 ==> r == core::result::Result::<(), QueueError>::Err(
                    QueueError::NoTrackUrl,
                ) && final(self).queue@ == old(self).queue@
                &&& tracks.len() > 0 ==> match first_unqueueable(tracks) {
                    None => r is Ok && final(self).queue@.len() == old(self).queue@.len()
                        + tracks.len(),
                    Some(i) => r == core::result::Result::<(), QueueError>::Err(
                        QueueError::NoTrackUrl,
                    ) && final(self).queue@.len() == old(self).queue@.len() + i,
                }
            },
    {
        let trks = match &album.trackinfo {
            Some(t) => t,
            None => {
                assert(self.queue@.subrange(0, self.queue@.len() as int) =~= self.queue@);
                return Err(QueueError::NoTrackList);
            },
        };
        if trks.len() == 0 {
            assert(self.queue@.subrange(0, self.queue@.len() as int) =~= self.queue@);
            return Err(QueueError::NoTrackUrl);
        }
        let ghost start = self.queue@;
        let mut i: usize = 0;
        while i < trks.len()
            invariant
                i <= trks.len(),
                album.trackinfo == Some(*trks),
                forall|j: int|
                    0 <= j < trks.len() && queueable(#[trigger] trks@[j]) ==> trks@[j].file is Some,
                forall|j: int| 0 <= j < i ==> queueable(#[trigger] trks@[j]),
                self.queue_pos == old(self).queue_pos,
                self.shuffle == old(self).shuffle,
                start == old(self).queue@,
                self.queue@.len() == start.len() + i,
                self.queue@.subrange(0, start.len() as int) == start,
                forall|k: int|
                    start.len() <= k < self.queue@.len() ==> entry_matches(
                        #[trigger] self.queue@[k],
                        trks@[k - start.len()],
                        *album,
                    ),
            decreases trks.len() - i,
        {
            match QueuedTrack::new(&trks[i], album) {
                Some(q) => {
                    self.queue.push(q);
                    assert(self.queue@.subrange(0, start.len() as int) =~= start);
                },
                None => {
                    proof {
                        assert(!queueable(trks@[i as int]));
                        let w = choose|w: int|
                            0 <= w < trks@.len() && !queueable(#[trigger] trks@[w]) && forall|j: int|
                                0 <= j < w ==> queueable(#[trigger] trks@[j]);
                        assert(w == i) by {
                            if w < i {
                                assert(queueable(trks@[w]));
                            }
                            if w > i {
                                assert(queueable(trks@[i as int]));
                            }
                        }
                    }
                    return Err(QueueError::NoTrackUrl);
                },
            }
            i = i + 1;
        }
        assert(first_unqueueable(trks@) is None);
        Ok(())
    }

    /// Queues the tracks of the album loaded from a URL (`None`: it could
    /// not be loaded or read), as `add_album` does.
    pub fn add_album_in_queue(&mut self, album: Option<Album>) -> (r: core::result::Result<
        (),
        QueueError,
    >)
        requires
            album matches Some(a) ==> files_present(a),
        ensures
            final(self).queue_pos == old(self).queue_pos,
            final(self).shuffle == old(self).shuffle,
            match album {
                Some(a) => album_added(old(self).queue@, final(self).queue@, a) && (r is Ok
                    <==> album_add_succeeds(a)),
                None => r == core::result::Result::<(), QueueError>::Err(QueueError::NoAlbumData)
                    && final(self).queue@ == old(self).queue@,
            },
    {
        match album {
            Some(a) => self.add_album(&a),
            None => Err(QueueError::NoAlbumData),
        }
    }
}

/// The position `next` moves to from `pos` in a queue of `len` tracks.
pub open spec fn next_pos(pos: int, len: int) -> Option<int> {
    if pos + 1 < len - 1 {
        Some(pos + 1)
    } else {
        None
    }
}

/// The position `prev` moves to from `pos`.
pub open spec fn prev_pos(pos: int) -> Option<int> {
    if pos > 0 {
        Some(pos - 1)
    } else {
        None
    }
}

/// The position `set(idx)` moves to in a queue of `len` tracks.
pub open spec fn set_pos(len: int, idx: int) -> Option<int> {
    if 0 <= idx < len {
        Some(idx)
    } else {
        None
    }
}

/// What `get_current_track` answers for a queue at `pos`.
pub open spec fn current_track(q: Seq<QueuedTrack>, pos: int) -> Option<QueuedTrack> {
    if q.len() > 0 {
        Some(q[pos])
    } else {
        None
    }
}

/// Choosing a track by its index makes it the current track.
pub proof fn lemma_set_then_current(q: Seq<QueuedTrack>, idx: int)
    requires
        set_pos(q.len() as int, idx) is Some,
    ensures
        current_track(q, set_pos(q.len() as int, idx)->0) == Some(q[idx]),
{
}

/// Going back after a successful move ahead returns to the same position.
pub proof fn lemma_prev_undoes_next(pos: int, len: int)
    requires
        0 <= pos,
        next_pos(pos, len) is Some,
    ensures
        prev_pos(next_pos(pos, len)->0) == Some(pos),
{
}

/// Moving ahead after a successful move back returns to the same position,
/// as long as that position was not one of the last two.
pub proof fn lemma_next_undoes_prev(pos: int, len: int)
    requires
        prev_pos(pos) is Some,
        pos < len - 1,
    ensures
        next_pos(prev_pos(pos)->0, len) == Some(pos),
{
}

/// A song of the simple play list.
pub struct Track {
    pub artist: String,
    pub title: String,
    pub album: String,
    pub url: String,
}

/// The simple play list.
pub struct PlayQueue {
    pub tracks: Vec<Track>,
    pub shuffle: bool,
}

/// Choosing a track by index succeeds exactly for the places of the queue,
/// and moves to the place chosen: every track, the first included, can be
/// chosen.
pub proof fn lemma_set_selects(len: int, idx: int)
    ensures
        0 <= idx < len ==> set_pos(len, idx) == Some(idx),
        !(0 <= idx < len) ==> set_pos(len, idx) is None,
{
}

} // verus!

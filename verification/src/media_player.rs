//! The play queue of the windowed front-end and what the system's media
//! buttons ask of the audio back-end.
use vstd::prelude::*;

verus! {

broadcast use vstd::string::group_string_axioms;

/// A track in the windowed front-end's queue.
pub struct QueuedTrack {
    pub title: String,
    pub album: String,
    pub album_url: String,
    pub artist: String,
    /// The URL of the MP3 stream, when Bandcamp gave one.
    pub mp3_url: Option<String>,
    pub img_url: String,
}

impl Clone for QueuedTrack {
    fn clone(&self) -> (r: Self)
        ensures
            r == *self,
    {
        QueuedTrack {
            title: self.title.clone(),
            album: self.album.clone(),
            album_url: self.album_url.clone(),
            artist: self.artist.clone(),
            mp3_url: match &self.mp3_url {
                Some(u) => Some(u.clone()),
                None => None,
            },
            img_url: self.img_url.clone(),
        }
    }
}

/// A press of a media button.
pub enum MediaEvent {
    Toggle,
    Play,
    Pause,
    Stop,
    /// Seek by this many milliseconds (`true`: forward).
    SeekBy(bool, u64),
    /// Any other button.
    Other,
}

/// A call of the audio back-end.
#[derive(Debug, Clone, PartialEq, Eq, Structural)]
pub enum BackendCall {
    SetPaused(bool),
    Stop,
    /// Seek to this many milliseconds.
    Seek(u64),
}

/// What the back-end is asked for a media button, the player being paused
/// or not: the seek goes to the distance itself, whichever the direction.
pub open spec fn call_for(event: MediaEvent, is_paused: bool) -> Option<BackendCall> {
    match event {
        MediaEvent::Toggle => Some(BackendCall::SetPaused(!is_paused)),
        MediaEvent::Play => Some(BackendCall::SetPaused(false)),
        MediaEvent::Pause => Some(BackendCall::SetPaused(true)),
        MediaEvent::Stop => Some(BackendCall::Stop),
        MediaEvent::SeekBy(_, ms) => Some(BackendCall::Seek(ms)),
        MediaEvent::Other => None,
    }
}

/// The call of the back-end that a media button asks for.
pub fn media_call(event: MediaEvent, is_paused: bool) -> (r: Option<BackendCall>)
    ensures
        r == call_for(event, is_paused),
{
    match event {
        MediaEvent::Toggle => Some(BackendCall::SetPaused(!is_paused)),
        MediaEvent::Play => Some(BackendCall::SetPaused(false)),
        MediaEvent::Pause => Some(BackendCall::SetPaused(true)),
        MediaEvent::Stop => Some(BackendCall::Stop),
        MediaEvent::SeekBy(_, ms) => Some(BackendCall::Seek(ms)),
        MediaEvent::Other => None,
    }
}

/// Pressing play/pause twice gives back the paused state.
pub proof fn lemma_toggle_twice(is_paused: bool)
    ensures
        call_for(MediaEvent::Toggle, is_paused) matches Some(BackendCall::SetPaused(p))
            && call_for(MediaEvent::Toggle, p) == Some(BackendCall::SetPaused(is_paused)),
{
}

/// The windowed front-end's queue and its position.
pub struct Player {
    /// The tracks.
    pub queue: Vec<QueuedTrack>,
    queue_position: usize,
}

/// The stream to switch to for a track: its MP3 URL, when it has one.
pub open spec fn stream_of(t: QueuedTrack) -> Option<String> {
    t.mp3_url
}

impl Player {
    /// The position in the queue.
    pub closed spec fn position(&self) -> usize {
        self.queue_position
    }

    /// The tracks.
    pub closed spec fn tracks(&self) -> Seq<QueuedTrack> {
        self.queue@
    }

    /// An empty queue.
    pub fn new() -> (p: Self)
        ensures
            p.tracks().len() == 0,
            p.position() == 0,
    {
        Player { queue: Vec::new(), queue_position: 0 }
    }

    /// The track at the position.
    pub fn get_current_track(&self) -> (r: QueuedTrack)
        requires
            self.position() < self.tracks().len(),
        ensures
            r == self.tracks()[self.position() as int],
    {
        self.queue[self.queue_position].clone()
    }

    /// The stream the back-end is to switch to for the track at the
    /// position: none when the track has no MP3 URL.
    pub fn load_track(&self) -> (r: Option<String>)
        requires
            self.position() < self.tracks().len(),
        ensures
            r == stream_of(self.tracks()[self.position() as int]),
    {
        let t = self.get_current_track();
        t.mp3_url
    }

    /// Moves back one track and gives the stream to switch to; an error at
    /// the start of the queue.
    pub fn prev(&mut self) -> (r: Result<Option<String>, String>)
        requires
            old(self).position() <= old(self).tracks().len(),
        ensures
            final(self).tracks() == old(self).tracks(),
            old(self).position() > 0 ==> final(self).position() == old(self).position() - 1
                && r == Ok::<Option<String>, String>(
                stream_of(old(self).tracks()[old(self).position() - 1]),
            ),
            old(self).position() == 0 ==> final(self).position() == 0 && (r matches Err(e) && e@
                == "Queue is already at beginning!"@),
    {
        if self.queue_position > 0 {
            self.queue_position = self.queue_position - 1;
            Ok(self.load_track())
        } else {
            Err("Queue is already at beginning!".to_string())
        }
    }

    /// Plays the track at the position again when it is not the last one
    /// (the position does not move); an error at the end of the queue.
    pub fn next(&mut self) -> (r: Result<Option<String>, String>)
        requires
            old(self).tracks().len() >= 1,
        ensures
            *final(self) == *old(self),
            old(self).position() < old(self).tracks().len() - 1 ==> r == Ok::<Option<String>, String>(
                stream_of(old(self).tracks()[old(self).position() as int]),
            ),
            old(self).position() >= old(self).tracks().len() - 1 ==> (r matches Err(e) && e@
                == "Queue is already at end!"@),
    {
        if self.queue_position < self.queue.len() - 1 {
            Ok(self.load_track())
        } else {
            Err("Queue is already at end!".to_string())
        }
    }
}

/// What a click on a button of the player window asks for.
#[derive(Debug, Clone, Copy, PartialEq, Eq, Structural)]
pub enum ClickAction {
    /// `play-pause`: pause or resume.
    TogglePause,
    /// `back`: the previous track.
    Back,
    /// `next`: the next track.
    Next,
    /// Any other button.
    Nothing,
}

/// The action of the button with id `id`.
pub open spec fn click_action_spec(id: Seq<char>) -> ClickAction {
    if id == "play-pause"@ {
        ClickAction::TogglePause
    } else if id == "back"@ {
        ClickAction::Back
    } else if id == "next"@ {
        ClickAction::Next
    } else {
        ClickAction::Nothing
    }
}

/// Whether `s` holds the characters of the literal `t`.
fn same_text(s: &str, t: &str) -> (r: bool)
    ensures
        r == (s@ == t@),
{
    let a = crate::text::chars_of(s);
    let b = crate::text::chars_of(t);
    crate::tag_order::chars_equal(&a, &b)
}

/// What a click on the button with id `id` asks for.
pub fn click_action(id: &str) -> (r: ClickAction)
    ensures
        r == click_action_spec(id@),
{
    if same_text(id, "play-pause") {
        ClickAction::TogglePause
    } else if same_text(id, "back") {
        ClickAction::Back
    } else if same_text(id, "next") {
        ClickAction::Next
    } else {
        ClickAction::Nothing
    }
}

/// The kinds of window events the player window reacts to.
#[derive(Debug, Clone, Copy, PartialEq, Eq, Structural)]
pub enum WindowEvent {
    ButtonClick,
    SelectValueChanged,
    Other,
}

/// Whether the player window reports an event as handled: a change of the
/// `audio-device` selection while it sinks. A click is acted on (see
/// `click_action`) but never reported as handled.
pub fn event_handled(event: WindowEvent, target_id: Option<&str>, sinking: bool) -> (r: bool)
    ensures
        r == (event == WindowEvent::SelectValueChanged && sinking && (match target_id {
            Some(id) => id@ == "audio-device"@,
            None => false,
        })),
{
    match event {
        WindowEvent::SelectValueChanged => match target_id {
            Some(id) => sinking && same_text(id, "audio-device"),
            None => false,
        },
        _ => false,
    }
}

/// A time given in seconds by the window, as `mm:ss` (the seconds taken
/// as an unsigned 64-bit number, as a cast gives them).
pub fn fmt_time(time: i32) -> (r: String)
    ensures
        r@ == crate::playback::clock_text((time as u64) as nat),
{
    crate::playback::format_clock(time as u64)
}

} // verus!

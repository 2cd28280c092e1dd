//! Playback bookkeeping: the `mm:ss` clock, the tracker of the playing
//! position, and the player's decisions about what to ask of the audio
//! thread.
//!
//! Times are counted in milliseconds; the caller reads the clock and hands
//! the reading in as `now`.
use vstd::prelude::*;

use crate::text::{dec_pad2, push_dec_pad2, string_from_chars};

verus! {

/// The text `{:02}:{:02}` of the minutes and seconds in `total_secs`.
pub open spec fn clock_text(total_secs: nat) -> Seq<char> {
    dec_pad2(total_secs / 60) + seq![':'] + dec_pad2(total_secs % 60)
}

/// Formats a number of whole seconds as minutes and seconds, `mm:ss`.
pub fn format_clock(total_secs: u64) -> (r: String)
    ensures
        r@ == clock_text(total_secs as nat),
{
    let mins = total_secs / 60;
    let secs = total_secs % 60;
    let mut out: Vec<char> = Vec::new();
    push_dec_pad2(&mut out, mins);
    out.push(':');
    push_dec_pad2(&mut out, secs);
    assert(out@ =~= clock_text(total_secs as nat));
    string_from_chars(out.as_slice())
}

/// A play time, shown as `mm:ss`; it holds the whole seconds of the time.
pub struct FormatTime(pub u64);

impl FormatTime {
    /// The time as `mm:ss` (minutes are not wrapped at the hour).
    pub fn to_string(&self) -> (r: String)
        ensures
            r@ == clock_text(self.0 as nat),
    {
        format_clock(self.0)
    }
}

/// How long ago `at` was at `now`; an `at` after `now` counts as no time
/// (as a later instant does for `Instant::elapsed`).
pub open spec fn elapsed(at: u64, now: u64) -> nat {
    if now >= at {
        (now - at) as nat
    } else {
        0
    }
}

fn elapsed_ms(at: u64, now: u64) -> (r: u64)
    ensures
        r == elapsed(at, now),
{
    if now >= at {
        now - at
    } else {
        0
    }
}

/// Tracks the playing position of a track: when it started, since when it
/// is paused, and how long it was paused before.
pub struct TimeTracker {
    started_at: u64,
    paused_at: Option<u64>,
    pause_time: u64,
}

impl View for TimeTracker {
    /// The start, the moment of the current pause, and the time spent in
    /// earlier pauses.
    type V = (u64, Option<u64>, u64);

    closed spec fn view(&self) -> (u64, Option<u64>, u64) {
        (self.started_at, self.paused_at, self.pause_time)
    }
}

/// The position of a tracker in state `t` at `now`, before it is cut down to
/// a duration (so it may be negative).
pub open spec fn raw_position(t: (u64, Option<u64>, u64), now: u64) -> int {
    match t.1 {
        Some(at) => elapsed(t.0, now) - t.2 - elapsed(at, now),
        None => elapsed(t.0, now) - t.2,
    }
}

/// The state of a tracker in state `t` once paused at `now`.
pub open spec fn pause_state(t: (u64, Option<u64>, u64), now: u64) -> (u64, Option<u64>, u64) {
    match t.1 {
        None => (t.0, Some(now), t.2),
        Some(_) => t,
    }
}

/// The state of a tracker in state `t` once resumed at `now`.
pub open spec fn resume_state(t: (u64, Option<u64>, u64), now: u64) -> (u64, Option<u64>, u64) {
    match t.1 {
        Some(at) => (t.0, None::<u64>, (t.2 + elapsed(at, now)) as u64),
        None => t,
    }
}

impl TimeTracker {
    /// A tracker that starts at `now`.
    pub fn new(now: u64) -> (t: Self)
        ensures
            t@ == (now, None::<u64>, 0u64),
    {
        Self { started_at: now, paused_at: None, pause_time: 0 }
    }

    /// Starts again at `now`.
    pub fn reset(&mut self, now: u64)
        ensures
            final(self)@ == (now, None::<u64>, 0u64),
    {
        *self = TimeTracker::new(now);
    }

    /// Pauses at `now`; a tracker already paused stays paused since the
    /// first pause.
    pub fn pause(&mut self, now: u64)
        ensures
            final(self)@ == pause_state(old(self)@, now),
    {
        if self.paused_at.is_none() {
            self.paused_at = Some(now);
        }
    }

    /// Resumes at `now`, adding the time of the pause to the paused time.
    pub fn play(&mut self, now: u64)
        requires
            old(self)@.1 matches Some(at) ==> old(self)@.2 + elapsed(at, now) <= u64::MAX,
        ensures
            final(self)@ == resume_state(old(self)@, now),
    {
        if let Some(at) = self.paused_at.take() {
            self.pause_time = self.pause_time + elapsed_ms(at, now);
        }
    }

    /// Moves the position `t` milliseconds ahead.
    pub fn seek_forward(&mut self, t: u64)
        requires
            old(self)@.0 >= t,
        ensures
            final(self)@ == ((old(self)@.0 - t) as u64, old(self)@.1, old(self)@.2),
    {
        self.started_at = self.started_at - t;
    }

    /// Moves the position `t` milliseconds back.
    pub fn seek_backward(&mut self, t: u64)
        requires
            old(self)@.0 + t <= u64::MAX,
        ensures
            final(self)@ == ((old(self)@.0 + t) as u64, old(self)@.1, old(self)@.2),
    {
        self.started_at = self.started_at + t;
    }

    /// The start, the moment of the current pause, and the time spent in
    /// earlier pauses.
    pub fn parts(&self) -> (r: (u64, Option<u64>, u64))
        ensures
            r == self@,
    {
        (self.started_at, self.paused_at, self.pause_time)
    }

    /// The position at `now` when it is not negative.
    pub fn position_or_none(&self, now: u64) -> (r: Option<u64>)
        ensures
            match r {
                Some(p) => raw_position(self@, now) >= 0 && p == raw_position(self@, now),
                None => raw_position(self@, now) < 0,
            },
    {
        let since_start = elapsed_ms(self.started_at, now) as i128;
        let paused = match self.paused_at {
            Some(at) => elapsed_ms(at, now) as i128,
            None => 0,
        };
        let p: i128 = since_start - self.pause_time as i128 - paused;
        if p >= 0 {
            Some(p as u64)
        } else {
            None
        }
    }

    /// The position at `now`: the time since the start less the time spent
    /// in pauses.
    pub fn time(&self, now: u64) -> (r: u64)
        requires
            raw_position(self@, now) >= 0,
        ensures
            r == raw_position(self@, now),
    {
        let since_start = elapsed_ms(self.started_at, now);
        match self.paused_at {
            Some(at) => since_start - self.pause_time - elapsed_ms(at, now),
            None => since_start - self.pause_time,
        }
    }
}

/// While a tracker is paused, its position does not move.
pub proof fn lemma_paused_position_still(t: (u64, Option<u64>, u64), now1: u64, now2: u64)
    requires
        t.1 matches Some(at) && t.0 <= at && at <= now1 && at <= now2,
    ensures
        raw_position(t, now1) == raw_position(t, now2),
{
}

/// Pausing and resuming at the same moment leaves the position unchanged at
/// every later moment.
pub proof fn lemma_pause_play_same_instant(
    t: (u64, Option<u64>, u64),
    now: u64,
    later: u64,
)
    requires
        t.1 is None,
        now <= later,
    ensures
        raw_position(resume_state(pause_state(t, now), now), later) == raw_position(t, later),
{
}

/// Seeking ahead by `s` and back by `s` gives back the tracker.
pub proof fn lemma_seek_back_undoes_forward(t: (u64, Option<u64>, u64), s: u64)
    requires
        t.0 >= s,
    ensures
        (((t.0 - s) as u64 + s) as u64, t.1, t.2) == t,
{
}

/// Seeking ahead by `s` moves the position `s` ahead, as long as the
/// tracker started no later than `now`.
pub proof fn lemma_seek_forward_moves(t: (u64, Option<u64>, u64), s: u64, now: u64)
    requires
        t.0 >= s,
        t.0 <= now,
    ensures
        raw_position(((t.0 - s) as u64, t.1, t.2), now) == raw_position(t, now) + s,
{
}

/// A new tracker's position is the time since it started.
pub proof fn lemma_new_position(start: u64, now: u64)
    requires
        start <= now,
    ensures
        raw_position((start, None::<u64>, 0u64), now) == now - start,
{
}

/// A request to the audio thread.
#[derive(Debug)]
pub enum Command {
    /// Report the playing position.
    GetTime,
    /// Load and play the track at this URL.
    SwitchTrack(String),
    /// Resume playback.
    Play,
    /// Pause playback.
    Pause,
    /// Stop playback.
    Stop,
    /// Move ahead by this many milliseconds.
    SeekForward(u64),
    /// Move back by this many milliseconds.
    SeekBackwards(u64),
    /// Set the volume, in percent.
    AddVolume(u16),
}

/// The player's own state: whether it is paused and its volume in percent.
/// Every operation answers with the command, if any, that the audio thread
/// is to receive.
pub struct Player {
    is_paused: bool,
    volume: u16,
}

impl View for Player {
    /// Whether the player is paused, and its volume.
    type V = (bool, u16);

    closed spec fn view(&self) -> (bool, u16) {
        (self.is_paused, self.volume)
    }
}

/// The volume after lowering `volume` by `value`, computed as the player
/// does with 16-bit signed numbers: `None` when that difference is negative,
/// and the volume is left as it is.
pub open spec fn lowered_volume(volume: u16, value: u16) -> Option<u16> {
    if (volume as i16) - (value as i16) >= 0 {
        Some((volume - value) as u16)
    } else {
        None
    }
}

/// What `seek` sends for a target of `target` seconds when the track is at
/// `current` seconds, both cut to 32-bit signed numbers as the player does:
/// a move back when the target lies behind, else a move ahead.
pub open spec fn seek_command_spec(current: u64, target: u64) -> (bool, nat) {
    let d = (current as i32) - (target as i32);
    if d > 0 {
        (false, (d * 1000) as nat)
    } else {
        (true, (-d * 1000) as nat)
    }
}

impl Player {
    /// A player that plays at full volume.
    pub fn new() -> (p: Player)
        ensures
            p@ == (false, 100u16),
    {
        Player { is_paused: false, volume: 100 }
    }

    /// Whether the player is paused.
    pub fn is_paused(&self) -> (r: bool)
        ensures
            r == self@.0,
    {
        self.is_paused
    }

    /// Pauses or resumes; the audio thread hears of it only when the state
    /// changes.
    pub fn set_paused(&mut self, paused: bool) -> (c: Option<Command>)
        ensures
            final(self)@ == (paused, old(self)@.1),
            old(self)@.0 && !paused ==> c matches Some(Command::Play),
            !old(self)@.0 && paused ==> c matches Some(Command::Pause),
            old(self)@.0 == paused ==> c is None,
    {
        let c = if self.is_paused && !paused {
            Some(self.play())
        } else if !self.is_paused && paused {
            Some(self.pause())
        } else {
            None
        };
        self.is_paused = paused;
        c
    }

    /// Asks the audio thread to resume.
    pub fn play(&mut self) -> (c: Command)
        ensures
            final(self)@ == old(self)@,
            c matches Command::Play,
    {
        Command::Play
    }

    /// Asks the audio thread to pause.
    pub fn pause(&mut self) -> (c: Command)
        ensures
            final(self)@ == old(self)@,
            c matches Command::Pause,
    {
        Command::Pause
    }

    /// Raises the volume by `value` percent and sends the new volume.
    pub fn increase_volume(&mut self, value: u16) -> (c: Command)
        requires
            old(self)@.1 + value <= u16::MAX,
        ensures
            final(self)@ == (old(self)@.0, (old(self)@.1 + value) as u16),
            c == Command::AddVolume(final(self)@.1),
    {
        self.volume = self.volume + value;
        Command::AddVolume(self.volume)
    }

    /// Lowers the volume by `value` percent and sends the new volume; does
    /// nothing when the volume would drop below zero.
    pub fn decrease_volume(&mut self, value: u16) -> (c: Option<Command>)
        requires
            i16::MIN <= (old(self)@.1 as i16) - (value as i16) <= i16::MAX,
            (old(self)@.1 as i16) - (value as i16) >= 0 ==> old(self)@.1 >= value,
        ensures
            final(self)@ == (old(self)@.0, match lowered_volume(old(self)@.1, value) {
                Some(v) => v,
                None => old(self)@.1,
            }),
            match lowered_volume(old(self)@.1, value) {
                Some(v) => c == Some(Command::AddVolume(v)),
                None => c is None,
            },
    {
        if self.volume as i16 - value as i16 >= 0 {
            self.volume = self.volume - value;
            Some(Command::AddVolume(self.volume))
        } else {
            None
        }
    }

    /// The volume in percent.
    pub fn get_volume(&mut self) -> (r: u16)
        ensures
            final(self)@ == old(self)@,
            r == old(self)@.1,
    {
        self.volume
    }

    /// Asks the audio thread to stop.
    pub fn stop(&mut self) -> (c: Command)
        ensures
            final(self)@ == old(self)@,
            c matches Command::Stop,
    {
        Command::Stop
    }

    /// Asks the audio thread to play the track at `url`.
    pub fn switch_track(&mut self, url: String) -> (c: Command)
        ensures
            final(self)@ == old(self)@,
            c == Command::SwitchTrack(url),
    {
        Command::SwitchTrack(url)
    }

    /// Asks the audio thread to move `time` milliseconds ahead.
    pub fn seek_forward(&mut self, time: u64) -> (c: Command)
        ensures
            final(self)@ == old(self)@,
            c == Command::SeekForward(time),
    {
        Command::SeekForward(time)
    }

    /// Asks the audio thread to move `time` milliseconds back.
    pub fn seek_backward(&mut self, time: u64) -> (c: Command)
        ensures
            final(self)@ == old(self)@,
            c == Command::SeekBackwards(time),
    {
        Command::SeekBackwards(time)
    }

    /// Moves to `time_secs` seconds into the track, which is now at
    /// `current_secs` seconds (no position counts as 0).
    pub fn seek(&mut self, current_secs: Option<u64>, time_secs: u64) -> (c: Command)
        requires
            ({
                let cur = match current_secs {
                    Some(s) => s,
                    None => 0u64,
                };
                let d = (cur as i32) - (time_secs as i32);
                i32::MIN < d <= i32::MAX
            }),
        ensures
            final(self)@ == old(self)@,
            ({
                let cur = match current_secs {
                    Some(s) => s,
                    None => 0u64,
                };
                let (ahead, ms) = seek_command_spec(cur, time_secs);
                if ahead {
                    c == Command::SeekForward(ms as u64)
                } else {
                    c == Command::SeekBackwards(ms as u64)
                }
            }),
    {
        let cur = match current_secs {
            Some(s) => s,
            None => 0,
        };
        let seek_secs: i32 = cur as i32 - time_secs as i32;
        if seek_secs > 0 {
            let ms: u64 = (seek_secs as u64) * 1000;
            self.seek_backward(ms)
        } else {
            let ms: u64 = ((0i64 - seek_secs as i64) as u64) * 1000;
            self.seek_forward(ms)
        }
    }
}

/// Raising the volume by `v` and lowering it by `v` again gives the volume
/// back.
pub proof fn lemma_volume_up_down(volume: u16, v: u16)
    requires
        volume + v <= i16::MAX,
    ensures
        lowered_volume((volume + v) as u16, v) == Some(volume),
{
    assert((((volume + v) as u16) as i16) == volume + v);
    assert((v as i16) == v);
}

/// Seeking lands on the target second: from second `current`, a target
/// behind is reached by going back `current - target` seconds, any other by
/// going ahead `target - current` seconds (both in milliseconds), for every
/// pair of seconds the player's 32-bit arithmetic holds.
pub proof fn lemma_seek_lands_on_target(current: u64, target: u64)
    requires
        current <= i32::MAX,
        target <= i32::MAX,
    ensures
        ({
            let (ahead, ms) = seek_command_spec(current, target);
            &&& current > target ==> !ahead && ms == (current - target) * 1000
            &&& current <= target ==> ahead && ms == (target - current) * 1000
            &&& current * 1000 - (if ahead { 0 } else { ms as int }) + (if ahead { ms as int } else { 0 })
                == target * 1000
        }),
{
    assert(current as i32 == current);
    assert(target as i32 == target);
}

} // verus!

//! The audio thread's bookkeeping: which output configuration to use, how
//! decoded samples leave the frame queue, how a time becomes a number of
//! samples, and what each command from the player does.
use vstd::prelude::*;

use crate::playback::{raw_position, Command, TimeTracker};

verus! {

broadcast use vstd::string::group_string_axioms;

// ---------------------------------------------------------------------------
// The frame queue.

/// The samples of the queued frames, one after the other.
pub open spec fn flatten(frames: Seq<Seq<i16>>) -> Seq<i16>
    decreases frames.len(),
{
    if frames.len() == 0 {
        Seq::empty()
    } else {
        frames[0] + flatten(frames.drop_first())
    }
}

/// The contents of some frames.
pub open spec fn frame_views(frames: Seq<Vec<i16>>) -> Seq<Seq<i16>> {
    frames.map_values(|f: Vec<i16>| f@)
}

proof fn lemma_flatten_first(frames: Seq<Seq<i16>>, rest: Seq<i16>)
    requires
        frames.len() > 0,
    ensures
        flatten(frames.update(0, rest)) == rest + flatten(frames.drop_first()),
{
    assert(frames.update(0, rest).drop_first() =~= frames.drop_first());
}

/// Takes up to `max` samples from the front of the frame queue, dropping
/// each frame once it is used up and cutting the one taken in part.
pub fn take_samples(frames: &mut Vec<Vec<i16>>, max: usize) -> (taken: Vec<i16>)
    ensures
        taken@.len() <= max,
        flatten(frame_views(old(frames)@)) == taken@ + flatten(frame_views(final(frames)@)),
        taken@.len() < max ==> flatten(frame_views(final(frames)@)).len() == 0,
{
    let mut taken: Vec<i16> = Vec::new();
    let ghost all = flatten(frame_views(frames@));
    while frames.len() > 0 && taken.len() < max
        invariant
            taken@.len() <= max,
            all == taken@ + flatten(frame_views(frames@)),
        decreases flatten(frame_views(frames@)).len() + frames@.len(),
    {
        let ghost fv = frame_views(frames@);
        assert(fv.drop_first() =~= frame_views(frames@.drop_first()));
        let want = max - taken.len();
        let flen = frames[0].len();
        if flen <= want {
            let f = frames.remove(0);
            let mut k: usize = 0;
            let ghost t0 = taken@;
            while k < f.len()
                invariant
                    k <= f.len(),
                    taken@ == t0 + f@.subrange(0, k as int),
                decreases f.len() - k,
            {
                taken.push(f[k]);
                k = k + 1;
                assert(taken@ =~= t0 + f@.subrange(0, k as int));
            }
            assert(f@.subrange(0, f.len() as int) =~= f@);
            assert(frame_views(frames@) =~= fv.drop_first());
            assert(fv[0] == f@);
            assert(all =~= taken@ + flatten(frame_views(frames@)));
        } else {
            let f = frames.remove(0);
            let mut k: usize = 0;
            let ghost t0 = taken@;
            while k < want
                invariant
                    k <= want,
                    want < f.len(),
                    taken@ == t0 + f@.subrange(0, k as int),
                decreases want - k,
            {
                taken.push(f[k]);
                k = k + 1;
                assert(taken@ =~= t0 + f@.subrange(0, k as int));
            }
            let mut rest: Vec<i16> = Vec::new();
            let mut m: usize = want;
            while m < f.len()
                invariant
                    want <= m <= f.len(),
                    rest@ == f@.subrange(want as int, m as int),
                decreases f.len() - m,
            {
                rest.push(f[m]);
                m = m + 1;
                assert(rest@ =~= f@.subrange(want as int, m as int));
            }
            let ghost before_insert = frames@;
            frames.insert(0, rest);
            assert(frame_views(frames@) =~= fv.update(0, rest@));
            proof {
                lemma_flatten_first(fv, rest@);
                assert(fv[0] == f@);
                assert(f@ =~= f@.subrange(0, want as int) + rest@);
            }
            assert(all =~= taken@ + flatten(frame_views(frames@)));
        }
    }
    taken
}

// ---------------------------------------------------------------------------
// The sample buffer shared with the output stream.

/// What the frames queued become, and how many samples are still to be
/// skipped, when `num` samples are skipped from their front as the buffer
/// does it: from the first frame it takes as many as it holds or as are
/// left to skip, and drops the frame when the samples taken are as many as
/// the samples left in it.
pub open spec fn skip_front(frames: Seq<Seq<i16>>, num: nat) -> (Seq<Seq<i16>>, nat)
    decreases num, frames.len(),
{
    if frames.len() == 0 || num == 0 {
        (frames, num)
    } else {
        let f = frames[0];
        let c = if num <= f.len() {
            num
        } else {
            f.len()
        };
        let rest = f.subrange(c as int, f.len() as int);
        if c == rest.len() {
            skip_front(frames.drop_first(), (num - c) as nat)
        } else {
            skip_front(frames.update(0, rest), (num - c) as nat)
        }
    }
}

/// The samples of the first `k` frames.
pub open spec fn samples_of_first(frames: Seq<Seq<i16>>, k: int) -> nat {
    flatten(frames.take(k)).len()
}

proof fn lemma_flatten_take_first(frames: Seq<Seq<i16>>, k: int)
    requires
        0 < k <= frames.len(),
    ensures
        flatten(frames.take(k)) == frames[0] + flatten(frames.drop_first().take(k - 1)),
{
    assert(frames.take(k).drop_first() =~= frames.drop_first().take(k - 1));
}

/// Skipping exactly the samples of the first `k` frames, none of them
/// empty, leaves the samples of the frames after them, in order.
pub proof fn lemma_skip_whole_frames(frames: Seq<Seq<i16>>, k: int)
    requires
        0 <= k <= frames.len(),
        forall|i: int| 0 <= i < frames.len() ==> (#[trigger] frames[i]).len() > 0,
    ensures
        flatten(skip_front(frames, samples_of_first(frames, k)).0) == flatten(frames.skip(k)),
        skip_front(frames, samples_of_first(frames, k)).1 == 0,
    decreases k,
{
    if k == 0 {
        assert(frames.take(0) =~= Seq::<Seq<i16>>::empty());
        assert(frames.skip(0) =~= frames);
    } else {
        lemma_flatten_take_first(frames, k);
        let f = frames[0];
        let tail = frames.drop_first();
        let num = samples_of_first(frames, k);
        let num2 = samples_of_first(tail, k - 1);
        assert(num == f.len() + num2);
        let emptied = frames.update(0, f.subrange(f.len() as int, f.len() as int));
        assert(f.subrange(f.len() as int, f.len() as int).len() == 0);
        assert(skip_front(frames, num) == skip_front(emptied, num2));
        assert(emptied.drop_first() =~= tail);
        assert(frames.skip(k) =~= tail.skip(k - 1));
        if num2 == 0 {
            if k - 1 > 0 {
                lemma_flatten_take_first(tail, k - 1);
                assert(tail[0].len() > 0);
            }
            assert(k - 1 == 0);
            assert(tail.skip(0) =~= tail);
            assert(flatten(emptied) == emptied[0] + flatten(emptied.drop_first()));
            assert(emptied[0] =~= Seq::<i16>::empty());
            assert(flatten(emptied) =~= flatten(tail));
        } else {
            assert(skip_front(emptied, num2) == skip_front(tail, num2));
            lemma_skip_whole_frames(tail, k - 1);
        }
    }
}

/// The buffer between the decoder and the output stream: the decoded
/// frames waiting to be played, the samples still waiting, the samples
/// handed to the device so far, and the volume.
pub struct SampleBuffer {
    /// The decoded frames waiting to be played.
    pub frames: Vec<Vec<i16>>,
    /// The samples decoded and not yet played.
    pub remaining_samples: usize,
    /// The samples handed to the device so far.
    pub submitted_samples: usize,
    /// The volume in percent.
    pub volume: u16,
}

/// The count `a + b` kept in a `usize` that wraps around, as an atomic
/// addition does.
pub open spec fn wrapping_sum(a: usize, b: usize) -> usize {
    if a + b <= usize::MAX {
        (a + b) as usize
    } else {
        (a + b - usize::MAX - 1) as usize
    }
}

/// Copies the samples of `f` from `from` on.
fn tail_of(f: &Vec<i16>, from: usize) -> (r: Vec<i16>)
    requires
        from <= f.len(),
    ensures
        r@ == f@.subrange(from as int, f.len() as int),
{
    let mut r: Vec<i16> = Vec::new();
    let mut m: usize = from;
    while m < f.len()
        invariant
            from <= m <= f.len(),
            r@ == f@.subrange(from as int, m as int),
        decreases f.len() - m,
    {
        r.push(f[m]);
        m = m + 1;
        assert(r@ =~= f@.subrange(from as int, m as int));
    }
    r
}

impl SampleBuffer {
    /// An empty buffer at full volume with nothing handed to the device.
    pub fn new() -> (b: Self)
        ensures
            b.frames@.len() == 0,
            b.remaining_samples == 0,
            b.submitted_samples == 0,
            b.volume == 100,
    {
        SampleBuffer { frames: Vec::new(), remaining_samples: 0, submitted_samples: 0, volume: 100 }
    }

    /// Empties the buffer and zeroes both counts (the volume stays).
    pub fn clear(&mut self)
        ensures
            final(self).frames@.len() == 0,
            final(self).remaining_samples == 0,
            final(self).submitted_samples == 0,
            final(self).volume == old(self).volume,
    {
        self.frames = Vec::new();
        self.remaining_samples = 0;
        self.submitted_samples = 0;
    }

    /// The first part of skipping `num` samples: nothing counts as waiting
    /// any more, and the samples are skipped from the queued frames. Gives
    /// back how many are still to be skipped from the decoder.
    pub fn skip_queued(&mut self, num: usize) -> (left: usize)
        ensures
            frame_views(final(self).frames@) == skip_front(frame_views(old(self).frames@), num as nat).0,
            left == skip_front(frame_views(old(self).frames@), num as nat).1,
            final(self).remaining_samples == 0,
            final(self).submitted_samples == old(self).submitted_samples,
            final(self).volume == old(self).volume,
    {
        self.remaining_samples = 0;
        let ghost goal = skip_front(frame_views(self.frames@), num as nat);
        let mut num = num;
        while !(self.frames.len() == 0 || num == 0)
            invariant
                skip_front(frame_views(self.frames@), num as nat) == goal,
                self.remaining_samples == 0,
                self.submitted_samples == old(self).submitted_samples,
                self.volume == old(self).volume,
            decreases num, self.frames@.len(),
        {
            let ghost fv = frame_views(self.frames@);
            let f = self.frames.remove(0);
            assert(fv[0] == f@);
            let count = if num <= f.len() {
                num
            } else {
                f.len()
            };
            let rest = tail_of(&f, count);
            if count == rest.len() {
                assert(frame_views(self.frames@) =~= fv.drop_first());
            } else {
                self.frames.insert(0, rest);
                assert(frame_views(self.frames@) =~= fv.update(0, rest@));
            }
            num = num - count;
        }
        num
    }

    /// A frame decoded while skipping, with `num` samples still to skip:
    /// as many of its samples as it holds or as are left are skipped, and
    /// what is left of it is queued, and counted as waiting, when it is
    /// longer than what was skipped. Gives back how many are still to be
    /// skipped.
    pub fn skip_decoded(&mut self, frame: Vec<i16>, num: usize) -> (left: usize)
        ensures
            ({
                let c = if num <= frame@.len() {
                    num as int
                } else {
                    frame@.len() as int
                };
                let rest = frame@.subrange(c, frame@.len() as int);
                &&& left == num - c
                &&& if c < rest.len() {
                    &&& frame_views(final(self).frames@) == frame_views(old(self).frames@).push(rest)
                    &&& final(self).remaining_samples == rest.len()
                } else {
                    &&& final(self).frames@ == old(self).frames@
                    &&& final(self).remaining_samples == old(self).remaining_samples
                }
            }),
            final(self).submitted_samples == old(self).submitted_samples,
            final(self).volume == old(self).volume,
    {
        let count = if num <= frame.len() {
            num
        } else {
            frame.len()
        };
        let rest = tail_of(&frame, count);
        if count < rest.len() {
            self.remaining_samples = rest.len();
            let ghost before = self.frames@;
            self.frames.push(rest);
            assert(frame_views(self.frames@) =~= frame_views(before).push(rest@));
        }
        num - count
    }

    /// Counts `n` more samples as handed to the device.
    pub fn count_submitted(&mut self, n: usize)
        ensures
            final(self).submitted_samples == wrapping_sum(old(self).submitted_samples, n),
            final(self).frames@ == old(self).frames@,
            final(self).remaining_samples == old(self).remaining_samples,
            final(self).volume == old(self).volume,
    {
        let a = self.submitted_samples;
        if n <= usize::MAX - a {
            self.submitted_samples = a + n;
        } else {
            self.submitted_samples = n - (usize::MAX - a) - 1;
        }
    }
}

/// The error when the machine has no output device.
pub open spec fn no_device_text() -> Seq<char> {
    "no output device available"@
}

/// Starts the audio thread's state once the output configuration is chosen
/// (`device_found`: whether there is an output device): nothing plays, the
/// tracker starts at `now`, the buffer is empty at full volume, and the
/// device runs at the chosen rate. Without a device, the error says so.
pub fn start_audio(device_found: bool, choice: ConfigChoice, now: u64) -> (r: Result<(AudioThread, SampleBuffer), String>)
    ensures
        match r {
            Ok((a, b)) => {
                &&& device_found
                &&& a.cur_url is None && a.is_playing
                &&& a.tracker@ == (now, None::<u64>, 0u64)
                &&& a.sample_rate == choice.rate
                &&& b.frames@.len() == 0 && b.remaining_samples == 0 && b.submitted_samples == 0
                &&& b.volume == 100
            },
            Err(e) => !device_found && e@ == no_device_text(),
        },
{
    if !device_found {
        return Err("no output device available".to_string());
    }
    Ok((AudioThread::new(choice.rate, now), SampleBuffer::new()))
}

// ---------------------------------------------------------------------------
// Samples and times.

/// The number of samples that `ms` milliseconds take at `rate` frames per
/// second of `channels` samples each, rounded down.
pub open spec fn samples_in(ms: nat, rate: nat, channels: nat) -> nat {
    ms * rate * channels / 1000
}

/// What `time_to_samples` gives for `ms` milliseconds of stereo at `rate`:
/// the number of samples, or the largest `usize` when it is larger.
pub open spec fn stereo_samples(ms: nat, rate: nat) -> nat {
    if samples_in(ms, rate, 2) <= usize::MAX {
        samples_in(ms, rate, 2)
    } else {
        usize::MAX as nat
    }
}

/// The number of samples in `ms` milliseconds at `rate` Hz with `channels`
/// channels, rounded down; the largest `usize` when it is larger.
pub fn time_to_samples(ms: u64, rate: u32, channels: u16) -> (r: usize)
    ensures
        samples_in(ms as nat, rate as nat, channels as nat) <= usize::MAX ==> r == samples_in(
            ms as nat,
            rate as nat,
            channels as nat,
        ),
        samples_in(ms as nat, rate as nat, channels as nat) > usize::MAX ==> r == usize::MAX,
{
    let a = ms as u128;
    let b = rate as u128;
    let c = channels as u128;
    assert(a * b <= 0xffff_ffff_ffff_ffff_u128 * 0xffff_ffff_u128) by (nonlinear_arith)
        requires
            a <= 0xffff_ffff_ffff_ffff_u128,
            b <= 0xffff_ffff_u128,
    ;
    assert(a * b * c <= 0xffff_ffff_ffff_ffff_u128 * 0xffff_ffff_u128 * 0xffff_u128) by (nonlinear_arith)
        requires
            a * b <= 0xffff_ffff_ffff_ffff_u128 * 0xffff_ffff_u128,
            c <= 0xffff_u128,
    ;
    let n = a * b * c / 1000;
    if n > usize::MAX as u128 {
        usize::MAX
    } else {
        n as usize
    }
}

// ---------------------------------------------------------------------------
// The output configuration.

/// The sample formats an output device may take.
#[derive(Debug, Clone, Copy, PartialEq, Eq, Structural)]
pub enum SampleFormat {
    I16,
    U16,
    F32,
}

/// One configuration an output device supports.
#[derive(Debug, Clone, Copy, PartialEq, Eq, Structural)]
pub struct OutputConfig {
    pub min_rate: u32,
    pub max_rate: u32,
    pub channels: u16,
    pub format: SampleFormat,
}

/// The choice of configuration: which one (if any), its sample format, and
/// the sample rate to ask for.
#[derive(Debug, Clone, Copy, PartialEq, Eq, Structural)]
pub struct ConfigChoice {
    pub selected: Option<usize>,
    pub format: SampleFormat,
    pub rate: u32,
}

/// The choice after looking at the first `n` configurations: a stereo
/// configuration reaching 44.1 kHz is taken when none was taken yet or when
/// it is 16-bit; the rate is raised to its maximum when `use_max_rate`.
pub open spec fn choice_after(configs: Seq<OutputConfig>, n: nat, use_max_rate: bool) -> ConfigChoice
    decreases n,
{
    if n == 0 {
        ConfigChoice { selected: None, format: SampleFormat::I16, rate: 44100 }
    } else {
        let before = choice_after(configs, (n - 1) as nat, use_max_rate);
        let c = configs[n - 1];
        if c.max_rate >= 44100 && c.channels == 2 && (before.selected is None || c.format
            == SampleFormat::I16) {
            ConfigChoice {
                selected: Some((n - 1) as usize),
                format: c.format,
                rate: if use_max_rate {
                    c.max_rate
                } else {
                    before.rate
                },
            }
        } else {
            before
        }
    }
}

/// Picks the output configuration among `configs`: the last 16-bit stereo
/// one that reaches 44.1 kHz, else the first such of any format. The rate
/// is the configuration's maximum when `use_max_rate` (as on Windows), else
/// 44.1 kHz.
pub fn select_config(configs: &Vec<OutputConfig>, use_max_rate: bool) -> (r: ConfigChoice)
    ensures
        r == choice_after(configs@, configs@.len(), use_max_rate),
{
    let mut r = ConfigChoice { selected: None, format: SampleFormat::I16, rate: 44100 };
    let mut i: usize = 0;
    while i < configs.len()
        invariant
            i <= configs.len(),
            r == choice_after(configs@, i as nat, use_max_rate),
        decreases configs.len() - i,
    {
        let c = configs[i];
        if c.max_rate >= 44100 && c.channels == 2 && (r.selected.is_none() || c.format
            == SampleFormat::I16) {
            r = ConfigChoice {
                selected: Some(i),
                format: c.format,
                rate: if use_max_rate {
                    c.max_rate
                } else {
                    r.rate
                },
            };
        }
        i = i + 1;
    }
    r
}

// ---------------------------------------------------------------------------
// Commands.

/// What the audio thread is to do with its stream, decoder and buffer.
pub enum AudioAction {
    /// Drop the decoder and the queued frames and zero the sample counts.
    Reset,
    /// Open the track at this URL and decode it from the start.
    LoadTrack(String),
    /// Drop this many samples from the front of what is queued and decoded.
    SkipSamples(usize),
    /// Set the count of samples handed to the device.
    SetSubmitted(usize),
    /// Start the output stream.
    PlayStream,
    /// Pause the output stream.
    PauseStream,
    /// Set the volume.
    SetVolume(u16),
    /// Answer a request for the position: milliseconds, or none when
    /// nothing plays.
    ReplyTime(Option<u64>),
}

/// The audio thread's state: the track that plays, whether it plays, the
/// position tracker, and the device's sample rate.
pub struct AudioThread {
    /// The URL of the track that plays.
    pub cur_url: Option<String>,
    /// Whether a track plays.
    pub is_playing: bool,
    /// The position.
    pub tracker: TimeTracker,
    /// The device's sample rate.
    pub sample_rate: u32,
}

/// Whether the tracker in state `t` can take `cmd` at `now` within its
/// arithmetic (the cases where the clock arithmetic would break are left
/// to the caller).
pub open spec fn command_fits(t: (u64, Option<u64>, u64), playing: bool, has_track: bool, cmd: Command, now: u64) -> bool {
    match cmd {
        Command::SeekForward(ms) => has_track ==> t.0 >= ms,
        Command::SeekBackwards(ms) => has_track ==> raw_position(t, now) >= 0 && t.0 + ms
            <= u64::MAX,
        Command::Play => (t.1 matches Some(at) ==> t.2 + crate::playback::elapsed(at, now)
            <= u64::MAX),
        Command::GetTime => playing ==> raw_position(t, now) >= 0,
        _ => true,
    }
}

impl AudioThread {
    /// A thread that plays nothing yet, with the device at `sample_rate`.
    pub fn new(sample_rate: u32, now: u64) -> (a: Self)
        ensures
            a.cur_url is None,
            a.is_playing,
            a.tracker@ == (now, None::<u64>, 0u64),
            a.sample_rate == sample_rate,
    {
        AudioThread { cur_url: None, is_playing: true, tracker: TimeTracker::new(now), sample_rate }
    }

    /// Whether the buffer must be reset before the next command: there is
    /// no decoder left and no sample waits to be played.
    pub fn needs_reset(has_decoder: bool, remaining_samples: usize) -> (r: bool)
        ensures
            r == (!has_decoder && remaining_samples == 0),
    {
        !has_decoder && remaining_samples == 0
    }

    /// The reset of the thread's own state at `now`: nothing plays.
    pub fn reset(&mut self, now: u64)
        ensures
            final(self).tracker@ == (now, None::<u64>, 0u64),
            !final(self).is_playing,
            final(self).cur_url == old(self).cur_url,
            final(self).sample_rate == old(self).sample_rate,
    {
        self.tracker.reset(now);
        self.is_playing = false;
    }

    /// Whether `cmd` can be taken at `now`.
    pub fn fits(&self, cmd: &Command, now: u64) -> (r: bool)
        ensures
            r == command_fits(self.tracker@, self.is_playing, self.cur_url is Some, *cmd, now),
    {
        let (start, paused_at, pause_time) = self.tracker.parts();
        let pos = self.tracker.position_or_none(now);
        match cmd {
            Command::SeekForward(ms) => self.cur_url.is_none() || start >= *ms,
            Command::SeekBackwards(ms) => self.cur_url.is_none() || (pos.is_some() && *ms
                <= u64::MAX - start),
            Command::Play => match paused_at {
                Some(at) => {
                    let e = if now >= at {
                        now - at
                    } else {
                        0
                    };
                    e <= u64::MAX - pause_time
                },
                None => true,
            },
            Command::GetTime => !self.is_playing || pos.is_some(),
            _ => true,
        }
    }

    /// Takes a command from the player at `now`; `submitted` is the count of
    /// samples handed to the device so far.
    pub fn on_command(&mut self, cmd: Command, now: u64, submitted: usize) -> (acts: Vec<AudioAction>)
        requires
            command_fits(old(self).tracker@, old(self).is_playing, old(self).cur_url is Some, cmd, now),
        ensures
            final(self).sample_rate == old(self).sample_rate,
            ({
                let o = *old(self);
                let n = *final(self);
                match cmd {
                    Command::SwitchTrack(url) => {
                        &&& n.tracker@ == (now, None::<u64>, 0u64)
                        &&& n.is_playing
                        &&& n.cur_url == Some(url)
                        &&& acts@.len() == 2 && acts@[0] is Reset
                        &&& (acts@[1] matches AudioAction::LoadTrack(u) && u == url)
                    },
                    Command::Stop => {
                        &&& n.tracker@ == (now, None::<u64>, 0u64)
                        &&& !n.is_playing && n.cur_url is None
                        &&& acts@.len() == 1 && acts@[0] is Reset
                    },
                    Command::SeekForward(ms) => if o.cur_url is None {
                        n.tracker@ == o.tracker@ && acts@.len() == 0
                    } else {
                        &&& n.tracker@ == ((o.tracker@.0 - ms) as u64, o.tracker@.1, o.tracker@.2)
                        &&& acts@.len() == 1
                        &&& acts@[0] == AudioAction::SkipSamples(
                            stereo_samples(ms as nat, o.sample_rate as nat) as usize,
                        )
                    },
                    Command::SeekBackwards(ms) => if o.cur_url is None {
                        n.tracker@ == o.tracker@ && acts@.len() == 0
                    } else {
                        let back = if ms <= raw_position(o.tracker@, now) {
                            ms as int
                        } else {
                            raw_position(o.tracker@, now)
                        };
                        let step = stereo_samples(back as nat, o.sample_rate as nat);
                        let skip = (submitted - (if step <= submitted {
                            step
                        } else {
                            submitted as nat
                        })) as usize;
                        &&& n.tracker@ == ((o.tracker@.0 + back) as u64, o.tracker@.1, o.tracker@.2)
                        &&& acts@.len() == 3
                        &&& (acts@[0] matches AudioAction::LoadTrack(u) && Some(u) == o.cur_url)
                        &&& acts@[1] == AudioAction::SkipSamples(skip)
                        &&& acts@[2] == AudioAction::SetSubmitted(skip)
                    },
                    Command::Play => {
                        &&& acts@.len() == 1 && acts@[0] is PlayStream
                        &&& n.tracker@ == (match o.tracker@.1 {
                            Some(at) => (o.tracker@.0, None::<u64>, (o.tracker@.2 + crate::playback::elapsed(at, now)) as u64),
                            None => o.tracker@,
                        })
                    },
                    Command::Pause => {
                        &&& acts@.len() == 1 && acts@[0] is PauseStream
                        &&& n.tracker@ == (match o.tracker@.1 {
                            None => (o.tracker@.0, Some(now), o.tracker@.2),
                            Some(_) => o.tracker@,
                        })
                    },
                    Command::AddVolume(v) => n.tracker@ == o.tracker@ && acts@.len() == 1 && acts@[0] == AudioAction::SetVolume(v),
                    Command::GetTime => {
                        &&& n.tracker@ == o.tracker@
                        &&& acts@.len() == 1
                        &&& acts@[0] == AudioAction::ReplyTime(if o.is_playing {
                            Some(raw_position(o.tracker@, now) as u64)
                        } else {
                            None
                        })
                    },
                }
            }),
    {
        let mut acts: Vec<AudioAction> = Vec::new();
        match cmd {
            Command::SwitchTrack(url) => {
                acts.push(AudioAction::Reset);
                self.reset(now);
                let u = url.clone();
                acts.push(AudioAction::LoadTrack(u));
                self.is_playing = true;
                self.cur_url = Some(url);
            },
            Command::Stop => {
                self.cur_url = None;
                self.reset(now);
                acts.push(AudioAction::Reset);
            },
            Command::SeekForward(ms) => {
                if self.cur_url.is_some() {
                    self.tracker.seek_forward(ms);
                    let k = time_to_samples(ms, self.sample_rate, 2);
                    acts.push(AudioAction::SkipSamples(k));
                }
            },
            Command::SeekBackwards(ms) => {
                match &self.cur_url {
                    Some(url) => {
                        let u = url.clone();
                        let pos = self.tracker.time(now);
                        let back = if ms <= pos {
                            ms
                        } else {
                            pos
                        };
                        self.tracker.seek_backward(back);
                        acts.push(AudioAction::LoadTrack(u));
                        let k = time_to_samples(back, self.sample_rate, 2);
                        let k = if k <= submitted {
                            k
                        } else {
                            submitted
                        };
                        acts.push(AudioAction::SkipSamples(submitted - k));
                        acts.push(AudioAction::SetSubmitted(submitted - k));
                    },
                    None => {},
                }
            },
            Command::Play => {
                acts.push(AudioAction::PlayStream);
                self.tracker.play(now);
            },
            Command::Pause => {
                acts.push(AudioAction::PauseStream);
                self.tracker.pause(now);
            },
            Command::AddVolume(v) => {
                acts.push(AudioAction::SetVolume(v));
            },
            Command::GetTime => {
                if self.is_playing {
                    let t = self.tracker.time(now);
                    acts.push(AudioAction::ReplyTime(Some(t)));
                } else {
                    acts.push(AudioAction::ReplyTime(None));
                }
            },
        }
        acts
    }
}

} // verus!

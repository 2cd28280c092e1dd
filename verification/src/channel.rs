//! A BASS channel: starting, pausing and stopping it, its state, length and
//! position, and how BASS's return values become results.
use vstd::prelude::*;

use crate::bass_channel::{playback_state_of, PlaybackState};
use crate::bass_error::{error_for_code, BassError};
use crate::bass_init::bass_error_get_code;

verus! {

/// The BASS value of `BASS_POS_BYTE`: positions counted in bytes.
pub const BASS_POS_BYTE: u32 = 0;

/// Trusted: `bass_sys::BASS_ChannelPlay(handle, restart)`; 0 means failure.
/// What it returns depends on the state of BASS and is not stated.
#[verifier::external_body]
fn channel_play_raw(handle: u32, restart: i32) -> i32 {
    bass_sys::BASS_ChannelPlay(handle, restart)
}

/// Trusted: `bass_sys::BASS_ChannelPause(handle)`; 0 means failure. Not
/// stated, as it depends on the state of BASS.
#[verifier::external_body]
fn channel_pause_raw(handle: u32) -> i32 {
    bass_sys::BASS_ChannelPause(handle)
}

/// Trusted: `bass_sys::BASS_ChannelStop(handle)`; 0 means failure. Not
/// stated, as it depends on the state of BASS.
#[verifier::external_body]
fn channel_stop_raw(handle: u32) -> i32 {
    bass_sys::BASS_ChannelStop(handle)
}

/// Trusted: `bass_sys::BASS_ChannelIsActive(handle)`, one of the
/// `BASS_ACTIVE_*` codes. Not stated, as it depends on the state of BASS.
#[verifier::external_body]
fn channel_is_active_raw(handle: u32) -> u32 {
    bass_sys::BASS_ChannelIsActive(handle)
}

/// Trusted: `bass_sys::BASS_ChannelGetLength(handle, mode)`; `u64::MAX`
/// (BASS's -1) when the length is not available. Not stated, as it depends
/// on the stream.
#[verifier::external_body]
fn channel_get_length_raw(handle: u32, mode: u32) -> u64 {
    bass_sys::BASS_ChannelGetLength(handle, mode)
}

/// Trusted: `bass_sys::BASS_ChannelGetPosition(handle, mode)`; `u64::MAX`
/// on failure. Not stated, as it depends on the stream.
#[verifier::external_body]
fn channel_get_position_raw(handle: u32, mode: u32) -> u64 {
    bass_sys::BASS_ChannelGetPosition(handle, mode)
}

/// Trusted: `bass_sys::BASS_ChannelSetPosition(handle, pos, mode)`; 0 means
/// failure. Not stated, as it depends on the stream.
#[verifier::external_body]
fn channel_set_position_raw(handle: u32, pos: u64, mode: u32) -> i32 {
    bass_sys::BASS_ChannelSetPosition(handle, pos, mode)
}

/// Trusted: `bass_sys::BASS_ChannelSetDevice(handle, device)`; 0 means
/// failure. Not stated, as it depends on the machine.
#[verifier::external_body]
fn channel_set_device_raw(handle: u32, device: u32) -> i32 {
    bass_sys::BASS_ChannelSetDevice(handle, device)
}

/// Trusted: `bass_sys::BASS_SampleGetChannel(handle, flags)`, a channel
/// for the sample (0 on failure). Not stated, as it depends on the state of
/// BASS.
#[verifier::external_body]
fn sample_get_channel_raw(handle: u32, flags: u32) -> u32 {
    bass_sys::BASS_SampleGetChannel(handle, flags)
}

/// The result of a BASS call that returns 0 on failure: the error with
/// code `err_code` then, else success.
pub open spec fn bool_result_spec(ret: i32, err_code: i32) -> Result<(), BassError> {
    if ret == 0 {
        Err(error_for_code(err_code))
    } else {
        Ok(())
    }
}

/// Reads the return value of a BASS call that returns 0 on failure;
/// `err_code` is BASS's error code after it.
pub fn bool_result(ret: i32, err_code: i32) -> (r: Result<(), BassError>)
    ensures
        r == bool_result_spec(ret, err_code),
{
    if ret == 0 {
        Err(BassError::from_code(err_code))
    } else {
        Ok(())
    }
}

/// The result of a BASS call that returns `err_val` on failure.
pub open spec fn value_result_spec(ret: u64, err_val: u64, err_code: i32) -> Result<u64, BassError> {
    if ret == err_val {
        Err(error_for_code(err_code))
    } else {
        Ok(ret)
    }
}

/// Reads the return value of a BASS call that returns `err_val` on
/// failure; `err_code` is BASS's error code after it.
pub fn value_result(ret: u64, err_val: u64, err_code: i32) -> (r: Result<u64, BassError>)
    ensures
        r == value_result_spec(ret, err_val, err_code),
{
    if ret == err_val {
        Err(BassError::from_code(err_code))
    } else {
        Ok(ret)
    }
}

/// The state BASS reports as the code `state`: a stopped channel with an
/// error code other than "OK" stands for that error.
pub open spec fn state_result_spec(state: u32, err_code: i32) -> Result<PlaybackState, BassError> {
    let s = playback_state_of(state);
    if s == PlaybackState::Stopped && error_for_code(err_code) != BassError::AllOk {
        Err(error_for_code(err_code))
    } else {
        Ok(s)
    }
}

/// Reads the state BASS reports; `err_code` is BASS's error code after the
/// call, read only for a stopped channel.
pub fn state_result(state: u32, err_code: i32) -> (r: Result<PlaybackState, BassError>)
    ensures
        r == state_result_spec(state, err_code),
{
    let s = PlaybackState::from(state);
    match s {
        PlaybackState::Stopped => {
            let e = BassError::from_code(err_code);
            match e {
                BassError::AllOk => Ok(s),
                _ => Err(e),
            }
        },
        _ => Ok(s),
    }
}

/// Whether `r` is what a BASS call that returns 0 on failure gives for
/// some return value and some error code.
pub open spec fn some_bool_result(r: Result<(), BassError>) -> bool {
    exists|ret: i32, code: i32| r == bool_result_spec(ret, code)
}

/// A BASS channel, known by its handle.
pub struct Channel {
    /// The handle of the channel.
    pub handle: u32,
}

impl Channel {
    /// The channel with handle `handle`.
    pub fn new(handle: u32) -> (c: Self)
        ensures
            c.handle == handle,
    {
        Channel { handle }
    }

    /// The handle BASS is asked about or told to act on for this channel.
    pub fn handle_arg(&self) -> (h: u32)
        ensures
            h == self.handle,
    {
        self.handle
    }

    /// The arguments of `BASS_ChannelPlay` for this channel: its handle, and
    /// 1 to restart from the beginning, else 0.
    pub fn play_args(&self, restart: bool) -> (a: (u32, i32))
        ensures
            a == (self.handle, if restart {
                1i32
            } else {
                0i32
            }),
    {
        (self.handle, if restart {
            1
        } else {
            0
        })
    }

    /// The arguments of `BASS_ChannelGetLength` and `BASS_ChannelGetPosition`
    /// for this channel: its handle and the byte mode.
    pub fn bytes_args(&self) -> (a: (u32, u32))
        ensures
            a == (self.handle, BASS_POS_BYTE),
    {
        (self.handle, BASS_POS_BYTE)
    }

    /// The arguments of `BASS_ChannelSetPosition` for byte position `pos`
    /// of this channel.
    pub fn position_args(&self, pos: u64) -> (a: (u32, u64, u32))
        ensures
            a == (self.handle, pos, BASS_POS_BYTE),
    {
        (self.handle, pos, BASS_POS_BYTE)
    }

    /// The arguments of `BASS_ChannelSetDevice` for moving this channel to
    /// `device`.
    pub fn device_args(&self, device: u32) -> (a: (u32, u32))
        ensures
            a == (self.handle, device),
    {
        (self.handle, device)
    }

    /// Plays the channel, from the start when `restart`.
    pub fn play(&self, restart: bool) -> (r: Result<(), BassError>)
        ensures
            some_bool_result(r),
    {
        let (h, flag) = self.play_args(restart);
        let ret = channel_play_raw(h, flag);
        let code = if ret == 0 {
            bass_error_get_code()
        } else {
            0
        };
        let r = bool_result(ret, code);
        assert(r == bool_result_spec(ret, code));
        r
    }

    /// Pauses the channel.
    pub fn pause(&self) -> (r: Result<(), BassError>)
        ensures
            some_bool_result(r),
    {
        let ret = channel_pause_raw(self.handle_arg());
        let code = if ret == 0 {
            bass_error_get_code()
        } else {
            0
        };
        let r = bool_result(ret, code);
        assert(r == bool_result_spec(ret, code));
        r
    }

    /// Stops the channel.
    pub fn stop(&self) -> (r: Result<(), BassError>)
        ensures
            some_bool_result(r),
    {
        let ret = channel_stop_raw(self.handle_arg());
        let code = if ret == 0 {
            bass_error_get_code()
        } else {
            0
        };
        let r = bool_result(ret, code);
        assert(r == bool_result_spec(ret, code));
        r
    }

    /// Moves the channel to the byte position `pos`.
    pub fn set_position_bytes(&self, pos: u64) -> (r: Result<(), BassError>)
        ensures
            some_bool_result(r),
    {
        let (h, p, mode) = self.position_args(pos);
        let ret = channel_set_position_raw(h, p, mode);
        let code = if ret == 0 {
            bass_error_get_code()
        } else {
            0
        };
        let r = bool_result(ret, code);
        assert(r == bool_result_spec(ret, code));
        r
    }

    /// Moves the channel to the output device `device`.
    pub fn set_device(&self, device: u32) -> (r: Result<(), BassError>)
        ensures
            some_bool_result(r),
    {
        let (h, d) = self.device_args(device);
        let ret = channel_set_device_raw(h, d);
        let code = if ret == 0 {
            bass_error_get_code()
        } else {
            0
        };
        let r = bool_result(ret, code);
        assert(r == bool_result_spec(ret, code));
        r
    }

    /// The state of the channel.
    pub fn get_playback_state(&self) -> (r: Result<PlaybackState, BassError>)
        ensures
            exists|state: u32, code: i32| r == state_result_spec(state, code),
    {
        let state = channel_is_active_raw(self.handle_arg());
        let code = if state == crate::bass_channel::BASS_ACTIVE_STOPPED {
            bass_error_get_code()
        } else {
            0
        };
        let r = state_result(state, code);
        assert(r == state_result_spec(state, code));
        r
    }

    /// The length of the channel in bytes; an error when BASS reports the
    /// length as not available.
    pub fn get_length(&self) -> (r: Result<u64, BassError>)
        ensures
            exists|ret: u64, code: i32| r == value_result_spec(ret, u64::MAX, code),
    {
        let (h, mode) = self.bytes_args();
        let ret = channel_get_length_raw(h, mode);
        let code = if ret == 0xffff_ffff_ffff_ffff {
            bass_error_get_code()
        } else {
            0
        };
        let r = value_result(ret, 0xffff_ffff_ffff_ffff, code);
        assert(r == value_result_spec(ret, u64::MAX, code));
        r
    }

    /// The position of the channel in bytes.
    pub fn get_position_bytes(&self) -> (r: Result<u64, BassError>)
        ensures
            exists|ret: u64, code: i32| r == value_result_spec(ret, u64::MAX, code),
    {
        let (h, mode) = self.bytes_args();
        let ret = channel_get_position_raw(h, mode);
        let code = if ret == 0xffff_ffff_ffff_ffff {
            bass_error_get_code()
        } else {
            0
        };
        let r = value_result(ret, 0xffff_ffff_ffff_ffff, code);
        assert(r == value_result_spec(ret, u64::MAX, code));
        r
    }
}

/// The handles of some channels.
pub open spec fn handles(cs: Seq<Channel>) -> Seq<u32> {
    cs.map_values(|c: Channel| c.handle)
}

/// A sample loaded into BASS, and the channels that played it.
pub struct SampleChannel {
    /// The handle of the sample.
    pub handle: u32,
    /// The channels got for the sample so far, each once.
    pub channels: Vec<Channel>,
    /// The channel got last.
    pub newest_channel: Channel,
}

impl SampleChannel {
    /// The sample with handle `handle` and its first channel; an error when
    /// BASS gives no channel for it.
    pub fn new(handle: u32) -> (r: Result<Self, BassError>)
        ensures
            match r {
                Ok(sc) => {
                    &&& sc.handle == handle
                    &&& sc.newest_channel.handle != 0
                    &&& handles(sc.channels@) == seq![sc.newest_channel.handle]
                },
                Err(e) => exists|code: i32| e == error_for_code(code),
            },
    {
        let mut sc = SampleChannel { handle, channels: Vec::new(), newest_channel: Channel::new(0) };
        match sc.get_channel() {
            Ok(_) => {
                assert(handles(sc.channels@) =~= seq![sc.newest_channel.handle]);
                Ok(sc)
            },
            Err(e) => Err(e),
        }
    }

    /// Records the channel with handle `channel` as the newest, and among
    /// the channels unless it is there already.
    pub fn add_channel(&mut self, channel: u32)
        ensures
            final(self).newest_channel.handle == channel,
            final(self).handle == old(self).handle,
            handles(final(self).channels@) == (if handles(old(self).channels@).contains(channel) {
                handles(old(self).channels@)
            } else {
                handles(old(self).channels@).push(channel)
            }),
    {
        self.newest_channel = Channel::new(channel);
        let mut found = false;
        let mut i: usize = 0;
        while i < self.channels.len()
            invariant
                i <= self.channels.len(),
                found == handles(self.channels@).subrange(0, i as int).contains(channel),
            decreases self.channels.len() - i,
        {
            assert(handles(self.channels@).subrange(0, i + 1) =~= handles(self.channels@).subrange(
                0,
                i as int,
            ).push(self.channels@[i as int].handle));
            proof {
                crate::tag_order::lemma_contains_push(
                    handles(self.channels@).subrange(0, i as int),
                    self.channels@[i as int].handle,
                    channel,
                );
            }
            if self.channels[i].handle == channel {
                found = true;
            }
            i = i + 1;
        }
        assert(handles(self.channels@).subrange(0, self.channels.len() as int) =~= handles(
            self.channels@,
        ));
        if !found {
            let ghost before = self.channels@;
            self.channels.push(Channel::new(channel));
            assert(handles(self.channels@) =~= handles(before).push(channel));
        }
    }

    /// Gets a channel for the sample from BASS; it becomes the newest, and
    /// joins the channels unless it is there already. An error (the code
    /// BASS reports) when BASS gives none, and then nothing changes.
    pub fn get_channel(&mut self) -> (r: Result<Channel, BassError>)
        ensures
            final(self).handle == old(self).handle,
            match r {
                Ok(c) => {
                    &&& c.handle != 0
                    &&& final(self).newest_channel.handle == c.handle
                    &&& handles(final(self).channels@) == (if handles(old(self).channels@).contains(
                        c.handle,
                    ) {
                        handles(old(self).channels@)
                    } else {
                        handles(old(self).channels@).push(c.handle)
                    })
                },
                Err(e) => {
                    &&& exists|code: i32| e == error_for_code(code)
                    &&& final(self).channels@ == old(self).channels@
                    &&& final(self).newest_channel == old(self).newest_channel
                },
            },
    {
        let (h, flags) = self.sample_args();
        let ch = sample_get_channel_raw(h, flags);
        if ch == 0 {
            let code = bass_error_get_code();
            return Err(BassError::from_code(code));
        }
        self.add_channel(ch);
        Ok(Channel::new(ch))
    }

    /// The arguments of `BASS_SampleGetChannel` for this sample: its handle,
    /// and no flags (the sample's own settings, and no channel that is
    /// playing is taken over).
    pub fn sample_args(&self) -> (a: (u32, u32))
        ensures
            a == (self.handle, 0u32),
    {
        (self.handle, 0)
    }

    /// The channels got for the sample so far.
    pub fn get_channels(&self) -> (r: &Vec<Channel>)
        ensures
            r@ == self.channels@,
    {
        &self.channels
    }
}

} // verus!

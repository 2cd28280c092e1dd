//! BASS channel states, data kinds and attributes, and their BASS codes.
use vstd::prelude::*;

use vstd::std_specs::convert::FromSpecImpl;

verus! {

/// The BASS value of `BASS_ACTIVE_STOPPED`.
pub const BASS_ACTIVE_STOPPED: u32 = 0;

/// The BASS value of `BASS_ACTIVE_PLAYING`.
pub const BASS_ACTIVE_PLAYING: u32 = 1;

/// The BASS value of `BASS_ACTIVE_STALLED`.
pub const BASS_ACTIVE_STALLED: u32 = 2;

/// The BASS value of `BASS_ACTIVE_PAUSED`.
pub const BASS_ACTIVE_PAUSED: u32 = 3;

/// The BASS value of `BASS_ACTIVE_PAUSED_DEVICE`.
pub const BASS_ACTIVE_PAUSED_DEVICE: u32 = 4;

/// What a channel is doing.
#[derive(Copy, Clone, Debug, PartialEq, Eq, Structural)]
pub enum PlaybackState {
    /// Not playing.
    Stopped,
    /// Playing.
    Playing,
    /// Paused.
    Paused,
    /// Paused because the device stopped.
    PausedDevice,
    /// Playing but stalled for lack of data.
    Stalled,
}

/// The state BASS means by `code` (`BASS_ChannelIsActive`); unknown codes
/// count as stalled.
pub open spec fn playback_state_of(code: u32) -> PlaybackState {
    if code == BASS_ACTIVE_STOPPED {
        PlaybackState::Stopped
    } else if code == BASS_ACTIVE_PLAYING {
        PlaybackState::Playing
    } else if code == BASS_ACTIVE_PAUSED {
        PlaybackState::Paused
    } else if code == BASS_ACTIVE_PAUSED_DEVICE {
        PlaybackState::PausedDevice
    } else {
        PlaybackState::Stalled
    }
}

impl From<u32> for PlaybackState {
    fn from(i: u32) -> (r: Self) {
        if i == BASS_ACTIVE_STOPPED {
            PlaybackState::Stopped
        } else if i == BASS_ACTIVE_PLAYING {
            PlaybackState::Playing
        } else if i == BASS_ACTIVE_PAUSED {
            PlaybackState::Paused
        } else if i == BASS_ACTIVE_PAUSED_DEVICE {
            PlaybackState::PausedDevice
        } else {
            PlaybackState::Stalled
        }
    }
}

impl FromSpecImpl<u32> for PlaybackState {
    open spec fn obeys_from_spec() -> bool {
        true
    }

    open spec fn from_spec(v: u32) -> Self {
        playback_state_of(v)
    }
}

/// The BASS value of `BASS_DATA_FLOAT`.
pub const BASS_DATA_FLOAT: u32 = 0x40000000;

/// The BASS value of `BASS_DATA_FIXED`.
pub const BASS_DATA_FIXED: u32 = 0x20000000;

/// The BASS value of `BASS_DATA_FFT256`.
pub const BASS_DATA_FFT256: u32 = 0x80000000;

/// The BASS value of `BASS_DATA_FFT512`.
pub const BASS_DATA_FFT512: u32 = 0x80000001;

/// The BASS value of `BASS_DATA_FFT1024`.
pub const BASS_DATA_FFT1024: u32 = 0x80000002;

/// The BASS value of `BASS_DATA_FFT2048`.
pub const BASS_DATA_FFT2048: u32 = 0x80000003;

/// The BASS value of `BASS_DATA_FFT4096`.
pub const BASS_DATA_FFT4096: u32 = 0x80000004;

/// The BASS value of `BASS_DATA_FFT8192`.
pub const BASS_DATA_FFT8192: u32 = 0x80000005;

/// The BASS value of `BASS_DATA_FFT16384`.
pub const BASS_DATA_FFT16384: u32 = 0x80000006;

/// The BASS value of `BASS_DATA_FFT32768`.
pub const BASS_DATA_FFT32768: u32 = 0x80000007;

/// The BASS value of `BASS_DATA_FFT_COMPLEX`.
pub const BASS_DATA_FFT_COMPLEX: u32 = 0x80;

/// The BASS value of `BASS_DATA_FFT_INDIVIDUAL`.
pub const BASS_DATA_FFT_INDIVIDUAL: u32 = 0x10;

/// The BASS value of `BASS_DATA_FFT_NOWINDOW`.
pub const BASS_DATA_FFT_NOWINDOW: u32 = 0x20;

/// The BASS value of `BASS_DATA_FFT_NYQUIST`.
pub const BASS_DATA_FFT_NYQUIST: u32 = 0x100;

/// The BASS value of `BASS_DATA_FFT_REMOVEDC`.
pub const BASS_DATA_FFT_REMOVEDC: u32 = 0x40;

/// The BASS value of `BASS_DATA_AVAILABLE`.
pub const BASS_DATA_AVAILABLE: u32 = 0;

/// The kind of data `BASS_ChannelGetData` returns.
#[derive(Copy, Clone, Debug, PartialEq, Eq, Structural)]
pub enum DataType {
    /// Floating-point sample data.
    Float,
    /// 8.24 fixed-point sample data.
    Fixed,
    /// A 256-sample FFT.
    FFT256,
    /// A 512-sample FFT.
    FFT512,
    /// A 1024-sample FFT.
    FFT1024,
    /// A 2048-sample FFT.
    FFT2048,
    /// A 4096-sample FFT.
    FFT4096,
    /// An 8192-sample FFT.
    FFT8192,
    /// A 16384-sample FFT.
    FFT16384,
    /// A 32768-sample FFT.
    FFT32768,
    /// FFT flag: complex data.
    FFTComplex,
    /// FFT flag: one FFT for each channel.
    FFTIndividual,
    /// FFT flag: no Hanning window.
    FFTNoWindow,
    /// FFT flag: an extra Nyquist value.
    FFTNyquist,
    /// FFT flag: the DC bias is removed first.
    FFTRemoveDC,
    /// How much data is buffered.
    FFTAvailable,
}

/// The BASS code of `a`.
pub open spec fn data_type_code(a: DataType) -> u32 {
    match a {
        DataType::Float => BASS_DATA_FLOAT,
        DataType::Fixed => BASS_DATA_FIXED,
        DataType::FFT256 => BASS_DATA_FFT256,
        DataType::FFT512 => BASS_DATA_FFT512,
        DataType::FFT1024 => BASS_DATA_FFT1024,
        DataType::FFT2048 => BASS_DATA_FFT2048,
        DataType::FFT4096 => BASS_DATA_FFT4096,
        DataType::FFT8192 => BASS_DATA_FFT8192,
        DataType::FFT16384 => BASS_DATA_FFT16384,
        DataType::FFT32768 => BASS_DATA_FFT32768,
        DataType::FFTComplex => BASS_DATA_FFT_COMPLEX,
        DataType::FFTIndividual => BASS_DATA_FFT_INDIVIDUAL,
        DataType::FFTNoWindow => BASS_DATA_FFT_NOWINDOW,
        DataType::FFTNyquist => BASS_DATA_FFT_NYQUIST,
        DataType::FFTRemoveDC => BASS_DATA_FFT_REMOVEDC,
        DataType::FFTAvailable => BASS_DATA_AVAILABLE,
    }
}

impl From<DataType> for u32 {
    fn from(a: DataType) -> (r: u32) {
        match a {
            DataType::Float => BASS_DATA_FLOAT,
            DataType::Fixed => BASS_DATA_FIXED,
            DataType::FFT256 => BASS_DATA_FFT256,
            DataType::FFT512 => BASS_DATA_FFT512,
            DataType::FFT1024 => BASS_DATA_FFT1024,
            DataType::FFT2048 => BASS_DATA_FFT2048,
            DataType::FFT4096 => BASS_DATA_FFT4096,
            DataType::FFT8192 => BASS_DATA_FFT8192,
            DataType::FFT16384 => BASS_DATA_FFT16384,
            DataType::FFT32768 => BASS_DATA_FFT32768,
            DataType::FFTComplex => BASS_DATA_FFT_COMPLEX,
            DataType::FFTIndividual => BASS_DATA_FFT_INDIVIDUAL,
            DataType::FFTNoWindow => BASS_DATA_FFT_NOWINDOW,
            DataType::FFTNyquist => BASS_DATA_FFT_NYQUIST,
            DataType::FFTRemoveDC => BASS_DATA_FFT_REMOVEDC,
            DataType::FFTAvailable => BASS_DATA_AVAILABLE,
        }
    }
}

impl FromSpecImpl<DataType> for u32 {
    open spec fn obeys_from_spec() -> bool {
        true
    }

    open spec fn from_spec(v: DataType) -> u32 {
        data_type_code(v)
    }
}

/// The BASS value of `BASS_ATTRIB_FREQ`.
pub const BASS_ATTRIB_FREQ: u32 = 1;

/// The BASS value of `BASS_ATTRIB_PAN`.
pub const BASS_ATTRIB_PAN: u32 = 3;

/// The BASS value of `BASS_ATTRIB_VOL`.
pub const BASS_ATTRIB_VOL: u32 = 2;

/// The BASS value of `BASS_ATTRIB_SRC`.
pub const BASS_ATTRIB_SRC: u32 = 8;

/// The BASS value of `BASS_ATTRIB_EAXMIX`.
pub const BASS_ATTRIB_EAXMIX: u32 = 4;

/// An attribute of a channel.
#[derive(Copy, Clone, Debug, PartialEq, Eq, Structural)]
pub enum ChannelAttribute {
    /// The sample rate, 100 (min) to 100000 (max), 0 = the rate the channel was created with.
    Frequency,
    /// The panning/balance position, -1 (full left) to +1 (full right), 0 = centre.
    Pan,
    /// The volume level, 0 (silent) to 1 (full) or above.
    Volume,
    /// Sample rate conversion quality.
    Source,
    /// EAX wet/dry mix, 0 (full dry) to 1 (full wet), -1 = automatically calculate the mix based on the distance (the default).
    EaxMix,
}

/// The BASS code of `a`.
pub open spec fn channel_attribute_code(a: ChannelAttribute) -> u32 {
    match a {
        ChannelAttribute::Frequency => BASS_ATTRIB_FREQ,
        ChannelAttribute::Pan => BASS_ATTRIB_PAN,
        ChannelAttribute::Volume => BASS_ATTRIB_VOL,
        ChannelAttribute::Source => BASS_ATTRIB_SRC,
        ChannelAttribute::EaxMix => BASS_ATTRIB_EAXMIX,
    }
}

impl From<ChannelAttribute> for u32 {
    fn from(a: ChannelAttribute) -> (r: u32) {
        match a {
            ChannelAttribute::Frequency => BASS_ATTRIB_FREQ,
            ChannelAttribute::Pan => BASS_ATTRIB_PAN,
            ChannelAttribute::Volume => BASS_ATTRIB_VOL,
            ChannelAttribute::Source => BASS_ATTRIB_SRC,
            ChannelAttribute::EaxMix => BASS_ATTRIB_EAXMIX,
        }
    }
}

impl FromSpecImpl<ChannelAttribute> for u32 {
    open spec fn obeys_from_spec() -> bool {
        true
    }

    open spec fn from_spec(v: ChannelAttribute) -> u32 {
        channel_attribute_code(v)
    }
}

/// An attribute of the BASS_FX tempo add-on.
#[derive(Copy, Clone, Debug, PartialEq, Eq, Structural)]
pub enum TempoAttribute {
    /// The tempo of a channel, [-95%...0...+5000%] percents.
    Tempo,
    /// The pitch of a channel, [-60...0...+60] semitones.
    TempoPitch,
    /// The sample rate of a channel in Hz, but calculates by the same % as `TEMPO`.
    TempoFrequency,
    /// Use the AA Filter for a tempo channel
    TempoUseAAFilter,
    /// Sets the AA Filter length in taps (between 8 and 128).
    TempoAAFilterLength,
    /// Use the tempo quick algorithm for a tempo channel (true =1, false =0).
    TempoUseQuickAlgorithm,
    /// Sets the tempo sequence in ms. of a tempo channel (default = 82).
    TempoSequenceMs,
    /// Sets the tempo seek window in ms. of a tempo channel (default = 82).
    TempoSeekWindowMs,
    /// Sets the tempo overlap in ms. of a tempo channel (default = 12).
    TempoOverlapMs,
    /// Sets the playback direction of a reverse channel (-1=reverse, 1=forward, or use one of the BASSFXReverse flags).
    ReverseDir,
}

/// The BASS value of `BASS_ATTRIB_MUSIC_AMPLIFY`.
pub const BASS_ATTRIB_MUSIC_AMPLIFY: u32 = 0x100;

/// The BASS value of `BASS_ATTRIB_MUSIC_BPM`.
pub const BASS_ATTRIB_MUSIC_BPM: u32 = 0x103;

/// The BASS value of `BASS_ATTRIB_MUSIC_PANSEP`.
pub const BASS_ATTRIB_MUSIC_PANSEP: u32 = 0x101;

/// The BASS value of `BASS_ATTRIB_MUSIC_PSCALER`.
pub const BASS_ATTRIB_MUSIC_PSCALER: u32 = 0x102;

/// The BASS value of `BASS_ATTRIB_MUSIC_SPEED`.
pub const BASS_ATTRIB_MUSIC_SPEED: u32 = 0x104;

/// The BASS value of `BASS_ATTRIB_MUSIC_VOL_CHAN`.
pub const BASS_ATTRIB_MUSIC_VOL_CHAN: u32 = 0x200;

/// The BASS value of `BASS_ATTRIB_MUSIC_VOL_GLOBAL`.
pub const BASS_ATTRIB_MUSIC_VOL_GLOBAL: u32 = 0x105;

/// The BASS value of `BASS_ATTRIB_MUSIC_VOL_INST`.
pub const BASS_ATTRIB_MUSIC_VOL_INST: u32 = 0x300;

/// An attribute of a MOD music channel.
#[derive(Copy, Clone, Debug, PartialEq, Eq, Structural)]
pub enum MusicAttribute {
    /// The amplification level, 0 (min) to 100 (max) rounded down to a whole number.
    Amplify,
    /// The BPM, 1 (min) to 255 (max) rounded down to a whole number.
    Bpm,
    /// The Pan separation level, 0 (min) to 100 (max), 50 = linear rounded down to a whole number.
    PanSeparation,
    /// The Position scaler, 1 (min) to 256 (max) rounded down to a whole number.
    PositionScaler,
    /// The Speed, 0 (min) to 255 (max) rounded down to a whole number.
    Speed,
    /// A channel volume level, 0 (silent) to 1 (full).
    VolumeChannel,
    /// Global volume level.
    VolumeGlobal,
    /// An instrument/sample volume level, 0 (min) to 64 (max, 128 for IT format) rounded down to a whole number.
    VolumeInstrument,
    /// One of the attributes every channel has.
    Channel(ChannelAttribute),
}

/// The BASS code of `a`.
pub open spec fn music_attribute_code(a: MusicAttribute) -> u32 {
    match a {
        MusicAttribute::Amplify => BASS_ATTRIB_MUSIC_AMPLIFY,
        MusicAttribute::Bpm => BASS_ATTRIB_MUSIC_BPM,
        MusicAttribute::PanSeparation => BASS_ATTRIB_MUSIC_PANSEP,
        MusicAttribute::PositionScaler => BASS_ATTRIB_MUSIC_PSCALER,
        MusicAttribute::Speed => BASS_ATTRIB_MUSIC_SPEED,
        MusicAttribute::VolumeChannel => BASS_ATTRIB_MUSIC_VOL_CHAN,
        MusicAttribute::VolumeGlobal => BASS_ATTRIB_MUSIC_VOL_GLOBAL,
        MusicAttribute::VolumeInstrument => BASS_ATTRIB_MUSIC_VOL_INST,
        MusicAttribute::Channel(c) => channel_attribute_code(c),
    }
}

impl From<MusicAttribute> for u32 {
    fn from(a: MusicAttribute) -> (r: u32) {
        match a {
            MusicAttribute::Amplify => BASS_ATTRIB_MUSIC_AMPLIFY,
            MusicAttribute::Bpm => BASS_ATTRIB_MUSIC_BPM,
            MusicAttribute::PanSeparation => BASS_ATTRIB_MUSIC_PANSEP,
            MusicAttribute::PositionScaler => BASS_ATTRIB_MUSIC_PSCALER,
            MusicAttribute::Speed => BASS_ATTRIB_MUSIC_SPEED,
            MusicAttribute::VolumeChannel => BASS_ATTRIB_MUSIC_VOL_CHAN,
            MusicAttribute::VolumeGlobal => BASS_ATTRIB_MUSIC_VOL_GLOBAL,
            MusicAttribute::VolumeInstrument => BASS_ATTRIB_MUSIC_VOL_INST,
            MusicAttribute::Channel(c) => c.into(),
        }
    }
}

impl FromSpecImpl<MusicAttribute> for u32 {
    open spec fn obeys_from_spec() -> bool {
        true
    }

    open spec fn from_spec(v: MusicAttribute) -> u32 {
        music_attribute_code(v)
    }
}

impl From<ChannelAttribute> for MusicAttribute {
    fn from(c: ChannelAttribute) -> (r: MusicAttribute) {
        MusicAttribute::Channel(c)
    }
}

impl FromSpecImpl<ChannelAttribute> for MusicAttribute {
    open spec fn obeys_from_spec() -> bool {
        true
    }

    open spec fn from_spec(v: ChannelAttribute) -> MusicAttribute {
        MusicAttribute::Channel(v)
    }
}

} // verus!

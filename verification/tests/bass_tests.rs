use bcplayer::bass_channel::{ChannelAttribute, DataType, MusicAttribute, PlaybackState};
use bcplayer::bass_error::BassError;
use bcplayer::bass_flags::{
    AsBassFlags, DeviceFlags, DeviceType, InitFlags, ToBassFlags, BASS_DEVICE_16BITS,
    BASS_DEVICE_DMIX, BASS_DEVICE_LATENCY, BASS_DEVICE_MONO,
};
use bcplayer::bass_init::{Bass, BassBuilder, BassDevice};
use bcplayer::bass_player::{device_choice, device_labels, stream_url};
use bcplayer::len_traits::{FromLen, FromLenExt, IntoLen};
use bcplayer::channel::{bool_result, state_result, value_result, Channel};

#[test]
fn error_codes_map_to_errors() {
    assert_eq!(BassError::from_code(0), BassError::AllOk);
    assert_eq!(BassError::from_code(5), BassError::Handle);
    assert_eq!(BassError::from_code(8), BassError::Init);
    assert_eq!(BassError::from_code(46), BassError::Busy);
    assert_eq!(BassError::from_code(9999), BassError::Unknown(9999));
    assert_eq!(BassError::from_code(-7), BassError::Unknown(-7));
}

#[test]
fn error_messages() {
    assert_eq!(BassError::from_code(5).to_string(), "Invalid handle");
    assert_eq!(BassError::AllOk.to_string(), "All is OK");
    assert_eq!(BassError::from_code(8).to_string(), "General BASS library initialization failed");
    assert_eq!(BassError::Unknown(1234).to_string(), "Unknown error code: 1234");
    assert_eq!(BassError::Unknown(-3).to_string(), "Unknown error code: -3");
}

#[test]
fn init_flags_round_trip_through_masks() {
    let flags = vec![InitFlags::Latency, InitFlags::Mono, InitFlags::DMix];
    let mask = flags.clone().to_num();
    assert_eq!(mask, BASS_DEVICE_LATENCY | BASS_DEVICE_MONO | BASS_DEVICE_DMIX);
    let back: Vec<InitFlags> = mask.to_flags();
    assert_eq!(back, vec![InitFlags::Latency, InitFlags::Mono, InitFlags::DMix]);
    let m: u32 = BASS_DEVICE_16BITS | BASS_DEVICE_MONO;
    let read: Vec<InitFlags> = m.to_flags();
    assert_eq!(read, vec![InitFlags::SixteenBit, InitFlags::Mono]);
    let empty: Vec<InitFlags> = Vec::new();
    assert_eq!(empty.to_num(), 0);
}

#[test]
fn repeated_flags_count_once() {
    let flags = vec![InitFlags::Mono, InitFlags::Mono];
    assert_eq!(flags.to_num(), BASS_DEVICE_MONO);
}

#[test]
fn device_flags_and_types_are_read() {
    let m: u32 = 1 | 2;
    let flags: Vec<DeviceFlags> = m.to_flags();
    assert_eq!(flags, vec![DeviceFlags::Enabled, DeviceFlags::Default]);
    let back = flags.to_num();
    assert_eq!(back, 3);
    let t: u32 = 0;
    let types: Vec<DeviceType> = t.to_flags();
    assert!(types.is_empty());
}

#[test]
fn playback_states_from_codes() {
    assert_eq!(PlaybackState::from(0), PlaybackState::Stopped);
    assert_eq!(PlaybackState::from(1), PlaybackState::Playing);
    assert_eq!(PlaybackState::from(2), PlaybackState::Stalled);
    assert_eq!(PlaybackState::from(3), PlaybackState::Paused);
    assert_eq!(PlaybackState::from(4), PlaybackState::PausedDevice);
}

#[test]
fn attribute_and_data_codes() {
    assert_eq!(u32::from(ChannelAttribute::Frequency), 1);
    assert_eq!(u32::from(ChannelAttribute::Volume), 2);
    assert_eq!(u32::from(ChannelAttribute::Pan), 3);
    assert_eq!(u32::from(DataType::FFT4096), 0x80000004);
    assert_eq!(u32::from(DataType::Float), 0x40000000);
    assert_eq!(u32::from(MusicAttribute::Amplify), 0x100);
    assert_eq!(u32::from(MusicAttribute::from(ChannelAttribute::Volume)), 2);
}

#[test]
fn builder_collects_init_arguments() {
    let b = Bass::builder();
    assert_eq!(b.init_arguments(), (-1, 44100, 0, 0));
    let dev = BassDevice { name: "Speakers".to_string(), id: 3, flags: Vec::new() };
    let b = BassBuilder::new()
        .device(dev)
        .frequency(48000)
        .flag(InitFlags::Stereo)
        .flag(InitFlags::Latency)
        .window_ptr(77);
    assert_eq!(b.init_arguments(), (3, 48000, 0x8000 | 0x100, 77));
    let b = BassBuilder::new().device_index(2);
    assert_eq!(b.init_arguments().0, 2);
}

#[test]
fn lengths_convert_like_casts() {
    assert_eq!(5u8.into_len(), 5u64);
    assert_eq!((-1i32).into_len(), u64::MAX);
    assert_eq!(<u8 as FromLen>::from_len(300u32), 44u8);
    let v: u16 = 70000u32.from_len();
    assert_eq!(v, 4464);
}

#[test]
fn stream_urls_use_plain_http() {
    assert_eq!(stream_url("https://t4.bcbits.com/stream/a"), "http://t4.bcbits.com/stream/a");
    assert_eq!(stream_url("http://x"), "http://x");
}

#[test]
fn devices_are_labelled_and_chosen() {
    let d = |name: &str, id: u32| BassDevice { name: name.to_string(), id, flags: Vec::new() };
    let labels = device_labels(&vec![d("No sound", 0), d("Default", 1)]);
    assert_eq!(labels, vec!["No sound (0)", "Default (1)"]);
    assert_eq!(device_choice(1, 2), Some(1));
    assert_eq!(device_choice(2, 2), None);
    assert_eq!(device_choice(0, 0), None);
}

#[test]
fn bass_return_values_become_results() {
    assert_eq!(bool_result(1, 5), Ok(()));
    assert_eq!(bool_result(0, 5), Err(BassError::Handle));
    assert_eq!(value_result(42, 0, 5), Ok(42));
    assert_eq!(value_result(0, 0, 37), Err(BassError::Notavail));
    assert_eq!(value_result(u64::MAX, u64::MAX, 7), Err(BassError::from_code(7)));
    assert_eq!(state_result(1, 0), Ok(PlaybackState::Playing));
    assert_eq!(state_result(0, 0), Ok(PlaybackState::Stopped));
    assert_eq!(state_result(0, 5), Err(BassError::Handle));
    assert_eq!(state_result(3, 5), Ok(PlaybackState::Paused));
    assert_eq!(Channel::new(9).handle, 9);
}

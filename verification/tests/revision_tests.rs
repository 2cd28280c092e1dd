use bcplayer::audio_thread::{start_audio, ConfigChoice, SampleBuffer, SampleFormat};
use bcplayer::bass_error::BassError;
use bcplayer::bass_init::BassBuilder;
use bcplayer::bop_album::{album_parsing, get_album_data};
use bcplayer::channel::{Channel, SampleChannel};
use bcplayer::config::{Config, ConfigEvent};

#[test]
fn settings_window_events() {
    let mut c = Config::new_from(None);
    assert_eq!(c.on_event(ConfigEvent::ButtonClick(Some("volume".to_string()), "\"42\"".to_string())), (true, false));
    assert_eq!(c.volume, 42);
    assert_eq!(c.on_event(ConfigEvent::ButtonClick(Some("volume".to_string()), "loud".to_string())), (true, false));
    assert_eq!(c.volume, 100);
    assert_eq!(c.on_event(ConfigEvent::ButtonClick(Some("play".to_string()), "\"7\"".to_string())), (false, false));
    assert_eq!(c.on_event(ConfigEvent::ButtonClick(None, "\"7\"".to_string())), (false, false));
    assert_eq!(c.volume, 100);
    assert!(c.save_queue_on_exit && c.visualizer);
    assert_eq!(c.on_event(ConfigEvent::SelectValueChanged("audio-device".to_string(), true, "3".to_string())), (false, false));
    assert_eq!(c.device_index, 3);
    c.on_event(ConfigEvent::SelectValueChanged("audio-device".to_string(), false, "5".to_string()));
    assert_eq!(c.device_index, 3);
    c.on_event(ConfigEvent::SelectValueChanged("theme".to_string(), true, "5".to_string()));
    assert_eq!(c.device_index, 3);
    assert_eq!(c.on_event(ConfigEvent::DocumentCloseRequest), (false, true));
    assert_eq!(c.on_event(ConfigEvent::Other), (false, false));
}

#[test]
fn buffer_starts_empty_and_skips_whole_frames() {
    let mut b = SampleBuffer::new();
    assert!(b.frames.is_empty());
    assert_eq!((b.remaining_samples, b.submitted_samples, b.volume), (0, 0, 100));
    b.frames = vec![vec![1, 2, 3], vec![4, 5], vec![6, 7, 8, 9]];
    b.remaining_samples = 9;
    let left = b.skip_queued(5);
    assert_eq!(left, 0);
    assert_eq!(b.remaining_samples, 0);
    let rest: Vec<i16> = b.frames.concat();
    assert_eq!(rest, vec![6, 7, 8, 9]);
    let left = b.skip_queued(10);
    assert_eq!(left, 6);
    assert!(b.frames.concat().is_empty());
    b.count_submitted(10);
    assert_eq!(b.submitted_samples, 10);
    b.submitted_samples = usize::MAX;
    b.count_submitted(2);
    assert_eq!(b.submitted_samples, 1);
    b.clear();
    assert_eq!((b.frames.len(), b.remaining_samples, b.submitted_samples), (0, 0, 0));
}

#[test]
fn buffer_skips_inside_a_frame_as_it_counts() {
    // two samples of a four-sample frame are taken; the two left are as many
    // as were taken, so the frame goes
    let mut b = SampleBuffer::new();
    b.frames = vec![vec![1, 2, 3, 4], vec![5]];
    assert_eq!(b.skip_queued(2), 0);
    assert_eq!(b.frames, vec![vec![5]]);
    // one of three: the two left stay
    b.frames = vec![vec![1, 2, 3]];
    assert_eq!(b.skip_queued(1), 0);
    assert_eq!(b.frames, vec![vec![2, 3]]);
}

#[test]
fn buffer_keeps_what_a_decoded_frame_leaves() {
    let mut b = SampleBuffer::new();
    assert_eq!(b.skip_decoded(vec![1, 2, 3, 4, 5], 2), 0);
    assert_eq!(b.frames, vec![vec![3, 4, 5]]);
    assert_eq!(b.remaining_samples, 3);
    assert_eq!(b.skip_decoded(vec![1, 2, 3], 5), 2);
    assert_eq!(b.frames.len(), 1);
}

#[test]
fn audio_start_needs_a_device() {
    let choice = ConfigChoice { selected: Some(0), format: SampleFormat::I16, rate: 44100 };
    match start_audio(true, choice, 7) {
        Ok((a, b)) => {
            assert!(a.cur_url.is_none() && a.is_playing);
            assert_eq!(a.sample_rate, 44100);
            assert!(b.frames.is_empty() && b.volume == 100);
        },
        Err(_) => panic!("expected a start"),
    }
    match start_audio(false, choice, 7) {
        Err(e) => assert_eq!(e, "no output device available"),
        Ok(_) => panic!("expected an error"),
    }
}

#[test]
fn bass_init_answer_becomes_a_result() {
    assert!(BassBuilder::build_result(1, 0).is_ok());
    assert!(matches!(BassBuilder::build_result(0, 14), Err(BassError::Already)));
}

#[test]
fn bass_messages_differ() {
    let errs = [BassError::AllOk, BassError::Mem, BassError::Nochan, BassError::Notaudio, BassError::Unknown(3), BassError::Unknown(-3)];
    for (i, a) in errs.iter().enumerate() {
        assert!(!a.to_string().is_empty());
        for b in errs.iter().skip(i + 1) {
            assert_ne!(a.to_string(), b.to_string());
        }
    }
}

#[test]
fn album_object_is_the_data_in_braces() {
    let html = "<script>var TralbumData = {\n  a: 1\n};</script>";
    let data = get_album_data(html).unwrap();
    assert_eq!(data, "\n  a: 1\n");
    assert_eq!(album_parsing(html).unwrap(), format!("{{{}}}", data));
    assert!(get_album_data("nothing").is_none() && album_parsing("nothing").is_none());
}

#[test]
fn sample_channels_are_listed_once() {
    let mut s = SampleChannel { handle: 1, channels: Vec::new(), newest_channel: Channel::new(0) };
    s.add_channel(5);
    s.add_channel(6);
    s.add_channel(5);
    let hs: Vec<u32> = s.get_channels().iter().map(|c| c.handle).collect();
    assert_eq!(hs, vec![5, 6]);
    assert_eq!(s.newest_channel.handle, 5);
}

#[test]
fn channel_calls_get_this_channel() {
    let c = Channel::new(77);
    assert_eq!(c.handle_arg(), 77);
    assert_eq!(c.play_args(true), (77, 1));
    assert_eq!(c.play_args(false), (77, 0));
    assert_eq!(c.bytes_args(), (77, 0));
    assert_eq!(c.position_args(1234), (77, 1234, 0));
    assert_eq!(c.device_args(3), (77, 3));
    let s = SampleChannel { handle: 9, channels: Vec::new(), newest_channel: Channel::new(0) };
    assert_eq!(s.sample_args(), (9, 0));
}

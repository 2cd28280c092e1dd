use bcplayer::audio_thread::{
    select_config, take_samples, time_to_samples, AudioAction, AudioThread, ConfigChoice,
    OutputConfig, SampleFormat,
};
use bcplayer::discover::{discover_request, DiscoverLoader, State};
use bcplayer::media_player::{media_call, BackendCall, MediaEvent, Player as MediaPlayer};
use bcplayer::model::{Album, AudioUrl, Current, File, Item, Trackinfo};
use bcplayer::playback::{format_clock, Command, FormatTime, Player, TimeTracker};
use bcplayer::queue::{album_files_present, Queue, QueueError, QueuedTrack};

fn track(title: Option<&str>, unreleased: Option<bool>, url: Option<&str>) -> Trackinfo {
    Trackinfo {
        title: title.map(|s| s.to_string()),
        unreleased_track: unreleased,
        file: url.map(|u| File { mp3128: Some(u.to_string()) }),
    }
}

fn album(tracks: Option<Vec<Trackinfo>>) -> Album {
    Album {
        current: Current { artist: Some("Band".to_string()), title: Some("Record".to_string()) },
        trackinfo: tracks,
        url: None,
    }
}

#[test]
fn clock_formats_minutes_and_seconds() {
    assert_eq!(format_clock(65), "01:05");
    assert_eq!(format_clock(0), "00:00");
    assert_eq!(format_clock(3600), "60:00");
    assert_eq!(FormatTime(599).to_string(), "09:59");
}

#[test]
fn tracker_counts_play_time_without_pauses() {
    let mut t = TimeTracker::new(1_000);
    assert_eq!(t.time(4_000), 3_000);
    t.pause(4_000);
    assert_eq!(t.time(9_000), 3_000);
    t.play(9_000);
    assert_eq!(t.time(10_000), 4_000);
    t.seek_forward(500);
    assert_eq!(t.time(10_000), 4_500);
    t.seek_backward(500);
    assert_eq!(t.time(10_000), 4_000);
    t.reset(20_000);
    assert_eq!(t.time(20_000), 0);
}

#[test]
fn player_volume_and_pause_commands() {
    let mut p = Player::new();
    assert!(!p.is_paused());
    assert_eq!(p.get_volume(), 100);
    assert!(matches!(p.increase_volume(5), Command::AddVolume(105)));
    assert!(matches!(p.decrease_volume(10), Some(Command::AddVolume(95))));
    assert!(matches!(p.decrease_volume(200), None));
    assert_eq!(p.get_volume(), 95);
    assert!(matches!(p.set_paused(true), Some(Command::Pause)));
    assert!(matches!(p.set_paused(true), None));
    assert!(matches!(p.set_paused(false), Some(Command::Play)));
    assert!(matches!(p.seek(Some(30), 10), Command::SeekBackwards(20_000)));
    assert!(matches!(p.seek(Some(10), 30), Command::SeekForward(20_000)));
    assert!(matches!(p.seek(None, 5), Command::SeekForward(5_000)));
}

#[test]
fn queue_takes_an_album() {
    let a = album(Some(vec![
        track(Some("One"), None, Some("http://s/1")),
        track(None, Some(false), Some("http://s/2")),
    ]));
    assert!(album_files_present(&a));
    let mut q = Queue::new();
    assert!(q.add_album(&a).is_ok());
    assert_eq!(q.queue.len(), 2);
    assert_eq!(q.queue[0].to_string(), "Band - One");
    assert_eq!(q.queue[1].title, "Unknown title");
    assert_eq!(q.queue[1].audio_url, "http://s/2");
    assert_eq!(q.queue[0].album_url, "https://bandcamp.com");
    let t = q.set(1).unwrap();
    assert_eq!(t.audio_url, "http://s/2");
    assert!(q.set(5).is_none());
    assert_eq!(q.queue_pos, 1);
    assert_eq!(q.prev().unwrap().title, "One");
    assert!(q.prev().is_none());
}

#[test]
fn queue_refuses_albums_without_tracks() {
    let mut q = Queue::new();
    assert!(matches!(q.add_album(&album(None)), Err(QueueError::NoTrackList)));
    assert!(matches!(q.add_album(&album(Some(Vec::new()))), Err(QueueError::NoTrackUrl)));
    assert!(q.queue.is_empty());
    assert_eq!(QueueError::NoTrackList.to_string(), "Unable to get tracklist");
    assert_eq!(QueueError::NoTrackUrl.to_string(), "Cannot get track URL!");
}

#[test]
fn queue_stops_at_an_unreleased_track_without_stream() {
    let a = album(Some(vec![
        track(Some("One"), None, Some("http://s/1")),
        track(Some("Two"), Some(true), None),
        track(Some("Three"), None, Some("http://s/3")),
    ]));
    let mut q = Queue::new();
    assert!(matches!(q.add_album(&a), Err(QueueError::NoTrackUrl)));
    assert_eq!(q.queue.len(), 1);
}

#[test]
fn queue_next_never_reaches_the_last_track() {
    let a = album(Some(vec![
        track(Some("A"), None, Some("u")),
        track(Some("B"), None, Some("u")),
        track(Some("C"), None, Some("u")),
    ]));
    let mut q = Queue::new();
    q.add_album(&a).unwrap();
    assert_eq!(q.next().unwrap().title, "B");
    assert!(q.next().is_none());
    assert_eq!(q.get_current_track().unwrap().title, "B");
    let d = QueuedTrack::default();
    assert_eq!(d.duration, 0);
}

fn item(artist: &str, title: &str) -> Item {
    Item {
        tralbum_type: "a".to_string(),
        tralbum_id: 1,
        item_id: 1,
        title: title.to_string(),
        art_id: 1,
        artist: artist.to_string(),
        band_name: artist.to_string(),
        band_url: String::new(),
        tralbum_url: format!("https://{}.bandcamp.com/album/x", artist),
        genre: String::new(),
        audio_url: AudioUrl { mp3_128: String::new() },
    }
}

#[test]
fn discover_pages_are_counted() {
    let mut l = DiscoverLoader::new();
    assert!(l.extend_discover(Vec::new()).is_none());
    let r = l.extend_discover(vec!["metal".to_string()]).unwrap();
    assert_eq!(r.page, 1);
    assert_eq!(r.filters.tags, vec!["metal"]);
    assert_eq!(r.filters.format, "all");
    assert_eq!(r.filters.sort, "pop");
    assert_eq!(r.filters.location, 0);
    let r = l.extend_discover(vec!["metal".to_string()]).unwrap();
    assert_eq!(r.page, 2);
    l.append_discover(vec![item("a", "b")]);
    assert_eq!(l.discover.len(), 1);
    let req = discover_request(vec!["x".to_string()], 7);
    assert_eq!(req.page, 7);
}

#[test]
fn tags_are_selected_once() {
    let mut s = State::new();
    assert!(s.extend_discover().is_none());
    s.add_tag("rock".to_string());
    s.add_tag("rock".to_string());
    s.add_tag("jazz".to_string());
    assert_eq!(s.selected_tags, vec!["rock", "jazz"]);
    let r = s.extend_discover().unwrap();
    assert_eq!(r.filters.tags, vec!["rock", "jazz"]);
    assert_eq!(r.page, 1);
}

#[test]
fn samples_leave_the_frame_queue_in_order() {
    let mut frames = vec![vec![1i16, 2, 3], vec![], vec![4, 5]];
    let taken = take_samples(&mut frames, 4);
    assert_eq!(taken, vec![1, 2, 3, 4]);
    assert_eq!(frames, vec![vec![5i16]]);
    let taken = take_samples(&mut frames, 10);
    assert_eq!(taken, vec![5]);
    assert!(frames.is_empty());
    let mut more = vec![vec![7i16, 8]];
    assert!(take_samples(&mut more, 0).is_empty());
    assert_eq!(more, vec![vec![7i16, 8]]);
}

#[test]
fn times_become_sample_counts() {
    assert_eq!(time_to_samples(1000, 44100, 2), 88200);
    assert_eq!(time_to_samples(5000, 48000, 2), 480000);
    assert_eq!(time_to_samples(1, 44100, 2), 88);
    assert_eq!(time_to_samples(u64::MAX, u32::MAX, 2), usize::MAX);
}

#[test]
fn output_configuration_prefers_16_bit_stereo() {
    let c = |max: u32, ch: u16, f: SampleFormat| OutputConfig { min_rate: 8000, max_rate: max, channels: ch, format: f };
    let configs = vec![
        c(22050, 2, SampleFormat::I16),
        c(48000, 2, SampleFormat::F32),
        c(96000, 1, SampleFormat::I16),
        c(96000, 2, SampleFormat::I16),
        c(192000, 2, SampleFormat::U16),
    ];
    assert_eq!(
        select_config(&configs, false),
        ConfigChoice { selected: Some(3), format: SampleFormat::I16, rate: 44100 }
    );
    assert_eq!(
        select_config(&configs, true),
        ConfigChoice { selected: Some(3), format: SampleFormat::I16, rate: 96000 }
    );
    assert_eq!(
        select_config(&Vec::new(), false),
        ConfigChoice { selected: None, format: SampleFormat::I16, rate: 44100 }
    );
}

#[test]
fn audio_thread_follows_commands() {
    let mut a = AudioThread::new(44100, 0);
    let acts = a.on_command(Command::SeekForward(1000), 10, 0);
    assert!(acts.is_empty());
    let acts = a.on_command(Command::SwitchTrack("http://s/1".to_string()), 100, 0);
    assert!(matches!(acts[0], AudioAction::Reset));
    assert!(matches!(&acts[1], AudioAction::LoadTrack(u) if u == "http://s/1"));
    assert!(a.is_playing);
    let acts = a.on_command(Command::GetTime, 1100, 0);
    assert!(matches!(acts[0], AudioAction::ReplyTime(Some(1000))));
    let c = Command::SeekBackwards(5000);
    assert!(a.fits(&c, 1100));
    let acts = a.on_command(c, 1100, 100_000);
    assert!(matches!(&acts[0], AudioAction::LoadTrack(u) if u == "http://s/1"));
    assert!(matches!(acts[1], AudioAction::SkipSamples(11800)));
    assert!(matches!(acts[2], AudioAction::SetSubmitted(11800)));
    let acts = a.on_command(Command::GetTime, 1100, 0);
    assert!(matches!(acts[0], AudioAction::ReplyTime(Some(0))));
    let acts = a.on_command(Command::Stop, 2000, 0);
    assert!(matches!(acts[0], AudioAction::Reset));
    assert!(!a.is_playing);
    let acts = a.on_command(Command::GetTime, 2000, 0);
    assert!(matches!(acts[0], AudioAction::ReplyTime(None)));
    assert!(AudioThread::needs_reset(false, 0));
    assert!(!AudioThread::needs_reset(true, 0));
}

#[test]
fn media_buttons_map_to_backend_calls() {
    assert_eq!(media_call(MediaEvent::Toggle, true), Some(BackendCall::SetPaused(false)));
    assert_eq!(media_call(MediaEvent::Pause, false), Some(BackendCall::SetPaused(true)));
    assert_eq!(media_call(MediaEvent::SeekBy(false, 3000), false), Some(BackendCall::Seek(3000)));
    assert_eq!(media_call(MediaEvent::Other, false), None);
    let mut p = MediaPlayer::new();
    assert_eq!(p.prev().unwrap_err(), "Queue is already at beginning!");
    p.queue.push(bcplayer::media_player::QueuedTrack {
        title: "t".to_string(),
        album: "a".to_string(),
        album_url: "u".to_string(),
        artist: "b".to_string(),
        mp3_url: Some("http://m".to_string()),
        img_url: String::new(),
    });
    assert_eq!(p.next().unwrap_err(), "Queue is already at end!");
    assert_eq!(p.load_track(), Some("http://m".to_string()));
}

#[test]
fn queue_takes_a_loaded_album_or_reports_it_missing() {
    let mut q = Queue::new();
    assert!(matches!(q.add_album_in_queue(None), Err(QueueError::NoAlbumData)));
    assert!(matches!(q.add_album_in_queue(Some(album(Some(Vec::new())))), Err(QueueError::NoTrackUrl)));
    assert!(q.queue.is_empty());
    assert_eq!(QueueError::NoAlbumData.to_string(), "Cannot get album data");
    let a = album(Some(vec![track(Some("One"), None, Some("http://s/1"))]));
    assert!(q.add_album_in_queue(Some(a)).is_ok());
    assert_eq!(q.queue.len(), 1);
    assert_eq!(q.queue[0].audio_url, "http://s/1");
}

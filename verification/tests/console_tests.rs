use bcplayer::console_ui::{ConsoleEffect, ConsoleInput, ConsoleUi, LIST_DISCOVER, LIST_QUEUE, LIST_TAGS};
use bcplayer::model::{Album, AudioUrl, Current, File, Item, Trackinfo};
use bcplayer::playback::Command;

fn item(artist: &str, title: &str, url: &str) -> Item {
    Item {
        tralbum_type: "a".to_string(),
        tralbum_id: 1,
        item_id: 1,
        title: title.to_string(),
        art_id: 0,
        artist: artist.to_string(),
        band_name: artist.to_string(),
        band_url: String::new(),
        tralbum_url: url.to_string(),
        genre: String::new(),
        audio_url: AudioUrl { mp3_128: String::new() },
    }
}

fn album(n: usize) -> Album {
    Album {
        current: Current { artist: Some("Band".to_string()), title: Some("LP".to_string()) },
        trackinfo: Some(
            (0..n)
                .map(|i| Trackinfo {
                    title: Some(format!("T{}", i)),
                    unreleased_track: None,
                    file: Some(File { mp3128: Some(format!("http://s/{}", i)) }),
                })
                .collect(),
        ),
        url: Some("https://band.bandcamp.com/album/lp".to_string()),
    }
}

fn info(e: &ConsoleEffect) -> Option<&str> {
    match e {
        ConsoleEffect::Information(t) => Some(t.as_str()),
        _ => None,
    }
}

fn error(e: &ConsoleEffect) -> Option<&str> {
    match e {
        ConsoleEffect::Error(t) => Some(t.as_str()),
        _ => None,
    }
}

fn bottom(e: &ConsoleEffect) -> Option<&str> {
    match e {
        ConsoleEffect::BottomInfo(t) => Some(t.as_str()),
        _ => None,
    }
}

#[test]
fn console_starts_on_the_tags() {
    let ui = ConsoleUi::new(80, 24, vec!["rock".to_string(), "jazz".to_string()]);
    assert_eq!(ui.listboxes.len(), 3);
    assert!(ui.listboxes[LIST_TAGS].focused);
    assert_eq!(ui.listboxes[LIST_TAGS].display, vec!["rock", "jazz"]);
    assert_eq!(ui.listboxes[LIST_DISCOVER].description, "Discover");
    assert_eq!(ui.listboxes[LIST_QUEUE].description, "Play queue");
    assert_eq!(ui.rows, 24);
}

#[test]
fn console_enter_without_tags_is_an_error() {
    let mut ui = ConsoleUi::new(80, 24, vec!["rock".to_string()]);
    let es = ui.on_input(ConsoleInput::Enter);
    assert_eq!(es.len(), 1);
    assert_eq!(error(&es[0]), Some("Please select at least 1 tag!"));
}

#[test]
fn console_loads_releases_then_the_album_under_the_cursor() {
    let mut ui = ConsoleUi::new(80, 24, vec!["rock".to_string(), "jazz".to_string()]);
    assert!(ui.on_input(ConsoleInput::Char(' ')).is_empty());
    ui.on_input(ConsoleInput::Down);
    assert_eq!(ui.listboxes[LIST_TAGS].position, 1);
    ui.on_input(ConsoleInput::Char(' '));
    ui.on_input(ConsoleInput::Char(' '));
    let es = ui.on_input(ConsoleInput::Enter);
    assert_eq!(es.len(), 3);
    assert_eq!(info(&es[0]), Some("Loading discover..."));
    assert_eq!(info(&es[1]), Some("Discover"));
    match &es[2] {
        ConsoleEffect::LoadDiscover(req, true) => {
            assert_eq!(req.page, 1);
            assert_eq!(req.filters.tags, vec!["rock", "jazz"]);
        },
        _ => panic!("expected a page request"),
    }
    assert!(ui.listboxes[LIST_DISCOVER].focused && !ui.listboxes[LIST_TAGS].focused);
    let es = ui.discover_loaded(vec![item("A", "One", "https://a/1"), item("B", "Two", "https://b/2")], true);
    assert_eq!(ui.listboxes[LIST_DISCOVER].display, vec!["A - One", "B - Two"]);
    assert!(matches!(&es[0], ConsoleEffect::LoadAlbum(u) if u == "https://a/1"));
    // `l` asks for the next page; the whole list is listed again
    let es = ui.on_input(ConsoleInput::Char('l'));
    assert!(matches!(&es[0], ConsoleEffect::LoadDiscover(req, false) if req.page == 2));
    let es = ui.discover_loaded(vec![item("C", "Three", "https://c/3")], false);
    assert!(es.is_empty());
    assert_eq!(ui.listboxes[LIST_DISCOVER].display.len(), 5);
    let es = ui.album_loaded(Some(album(3)));
    assert!(es.is_empty());
    assert_eq!(ui.queue.queue.len(), 3);
    assert_eq!(ui.listboxes[LIST_QUEUE].display, vec!["Band - T0", "Band - T1", "Band - T2"]);
    let es = ui.album_loaded(None);
    assert_eq!(error(&es[0]), Some("Cannot get album data"));
    // Tab to the queue, Enter plays the track under the cursor
    let es = ui.on_input(ConsoleInput::Tab);
    assert_eq!(info(&es[0]), Some("Play queue"));
    ui.on_input(ConsoleInput::Down);
    ui.on_input(ConsoleInput::Down);
    let es = ui.on_input(ConsoleInput::Enter);
    assert!(matches!(&es[0], ConsoleEffect::Send(Command::SwitchTrack(u)) if u == "http://s/2"));
    assert_eq!(ui.queue.queue_pos, 2);
}

#[test]
fn console_enter_on_empty_releases_names_the_tags() {
    let mut ui = ConsoleUi::new(80, 24, vec!["rock".to_string(), "jazz".to_string()]);
    ui.on_input(ConsoleInput::Char(' '));
    ui.on_input(ConsoleInput::Down);
    ui.on_input(ConsoleInput::Char(' '));
    ui.on_input(ConsoleInput::Enter);
    let es = ui.discover_loaded(Vec::new(), true);
    assert_eq!(es.len(), 1);
    assert_eq!(error(&es[0]), Some("Cannot load discover! Please select another tags: rock, jazz"));
}

#[test]
fn console_player_keys() {
    let mut ui = ConsoleUi::new(80, 24, Vec::new());
    assert!(matches!(ui.on_input(ConsoleInput::Esc)[0], ConsoleEffect::Quit));
    assert!(matches!(ui.on_input(ConsoleInput::CtrlC)[0], ConsoleEffect::Quit));
    assert!(matches!(ui.on_input(ConsoleInput::F1)[0], ConsoleEffect::ToggleOverlay));
    assert!(matches!(ui.on_input(ConsoleInput::Left)[0], ConsoleEffect::Send(Command::SeekBackwards(5000))));
    assert!(matches!(ui.on_input(ConsoleInput::Right)[0], ConsoleEffect::Send(Command::SeekForward(5000))));
    assert!(matches!(ui.on_input(ConsoleInput::Char('s'))[0], ConsoleEffect::Send(Command::Stop)));
    assert!(ui.on_input(ConsoleInput::Char('d')).is_empty());
    assert!(matches!(ui.on_input(ConsoleInput::Char('a'))[0], ConsoleEffect::Send(Command::AddVolume(95))));
    assert!(matches!(ui.on_input(ConsoleInput::Char('d'))[0], ConsoleEffect::Send(Command::AddVolume(100))));
    let es = ui.on_input(ConsoleInput::Char('o'));
    assert_eq!(error(&es[0]), Some("Queue list is empty!"));
    // space outside the tag box pauses, a click on the last row's first cell resumes
    ui.on_input(ConsoleInput::Tab);
    assert!(matches!(ui.on_input(ConsoleInput::Char(' '))[0], ConsoleEffect::Send(Command::Pause)));
    assert!(matches!(ui.on_input(ConsoleInput::Click(0, 23))[0], ConsoleEffect::Send(Command::Play)));
    assert!(ui.on_input(ConsoleInput::Click(3, 5)).is_empty());
    assert!(ui.listboxes.iter().all(|b| b.position == 5));
    assert!(ui.on_input(ConsoleInput::Click(3, 22)).is_empty());
    assert!(ui.listboxes.iter().all(|b| b.position == 5));
    ui.on_input(ConsoleInput::Resize(100, 30));
    assert_eq!(ui.rows, 30);
    assert!(ui.listboxes.iter().all(|b| b.width == 100 && b.height == 30 && b.position == 0));
}

#[test]
fn console_bottom_line_and_track_end() {
    let mut ui = ConsoleUi::new(80, 24, Vec::new());
    let es = ui.tick(None);
    assert_eq!(bottom(&es[0]), Some("\u{25fc} \u{1f508}100%"));
    ui.album_loaded(Some(album(3)));
    let es = ui.tick(Some(65_000));
    assert_eq!(es.len(), 3);
    assert_eq!(bottom(&es[0]), Some("Loading next track..."));
    assert!(matches!(&es[1], ConsoleEffect::Send(Command::SwitchTrack(u)) if u == "http://s/1"));
    assert_eq!(bottom(&es[2]), Some("\u{25b6} \u{1f508}100% Band - T0 from LP 01:05/00:00"));
    let es = ui.tick(Some(1_000));
    assert_eq!(es.len(), 4);
    assert!(matches!(&es[1], ConsoleEffect::Send(Command::Stop)));
    assert_eq!(info(&es[2]), Some("Finished playback!"));
}

#[test]
fn console_three_tabs_come_back() {
    let mut ui = ConsoleUi::new(80, 24, Vec::new());
    let names: Vec<String> = (0..3)
        .map(|_| match &ui.on_input(ConsoleInput::Tab)[0] {
            ConsoleEffect::Information(t) => t.clone(),
            _ => String::new(),
        })
        .collect();
    assert_eq!(names, vec!["Discover", "Play queue", "Tags"]);
    assert!(ui.listboxes[LIST_TAGS].focused);
    assert!(!ui.listboxes[LIST_DISCOVER].focused && !ui.listboxes[LIST_QUEUE].focused);
}

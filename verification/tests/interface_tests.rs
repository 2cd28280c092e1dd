use bcplayer::cli::{parse_cli, CliCommand};
use bcplayer::cli_drawing::{run_string, ListBox};
use bcplayer::cli_optimized::FrameBuffer;
use bcplayer::cli_shell::{CliEffect, CliShell};
use bcplayer::config::{parse_i32, read_value_number, ArtworkThumbnailQuality, AudioSystem, Config, WindowGeometry};
use bcplayer::listbox;
use bcplayer::model::{Album, Current, File, Result as SearchHit, Trackinfo};
use bcplayer::playback::Command;
use bcplayer::statebar::{aabr, StateBar, StateBarWidget};
use bcplayer::tui::{TuiEffect, TuiKey, TuiState, LIST_BOX_DISCOVER, LIST_BOX_QUEUE, LIST_BOX_TAGS};
use bcplayer::cli_drawing::{bottom_line, status_line};
use bcplayer::artwork::{artwork_data_uri, parse_album_data};
use bcplayer::media_player::{click_action, event_handled, fmt_time, ClickAction, WindowEvent};

fn printed(es: &[CliEffect]) -> Vec<String> {
    es.iter()
        .filter_map(|e| match e {
            CliEffect::Print(s) => Some(s.clone()),
            _ => None,
        })
        .collect()
}

fn album_of(n: usize) -> Album {
    Album {
        current: Current { artist: Some("Band".to_string()), title: Some("LP".to_string()) },
        trackinfo: Some(
            (0..n)
                .map(|i| Trackinfo {
                    title: Some(format!("T{}", i)),
                    unreleased_track: None,
                    file: Some(File { mp3128: Some(format!("http://s/{}", i)) }),
                })
                .collect(),
        ),
        url: Some("https://band.bandcamp.com/album/lp".to_string()),
    }
}

#[test]
fn shell_changes_volume() {
    let mut sh = CliShell::new();
    let es = sh.apply(parse_cli("voli 5"));
    assert!(matches!(es[0], CliEffect::Send(Command::AddVolume(105))));
    assert_eq!(printed(&es), vec!["volume set to: 105%"]);
    let es = sh.apply(parse_cli("vold 200"));
    assert_eq!(printed(&es), vec!["volume set to: 105%"]);
    let es = sh.apply(parse_cli("vold 5"));
    assert!(matches!(es[0], CliEffect::Send(Command::AddVolume(100))));
    let es = sh.apply(parse_cli("voli abc"));
    assert_eq!(printed(&es), vec!["error: invalid volume format"]);
    let es = sh.apply(parse_cli("voli 65535"));
    assert_eq!(printed(&es), vec!["error: invalid volume format"]);
}

#[test]
fn shell_seeks_and_stops() {
    let mut sh = CliShell::new();
    let es = sh.apply(parse_cli("seekf 3"));
    assert_eq!(printed(&es), vec!["seeking forward to 3 seconds"]);
    assert!(matches!(es[1], CliEffect::Send(Command::SeekForward(3000))));
    let es = sh.apply(parse_cli("seekb 2"));
    assert_eq!(printed(&es), vec!["seeking backwards to 2 seconds"]);
    assert!(matches!(es[1], CliEffect::Send(Command::SeekBackwards(2000))));
    let es = sh.apply(parse_cli("seek 40"));
    assert!(matches!(es[1], CliEffect::SeekTo(40)));
    let es = sh.seek_to(Some(10), 40);
    assert!(matches!(es[0], CliEffect::Send(Command::SeekForward(30000))));
    let es = sh.apply(parse_cli("seek x"));
    assert_eq!(printed(&es), vec!["error: invalid seek format"]);
    let es = sh.apply(parse_cli("stop"));
    assert!(matches!(es[0], CliEffect::Send(Command::Stop)));
    assert_eq!(printed(&es), vec!["queue.player stopped!"]);
    let es = sh.apply(parse_cli("d"));
    assert!(matches!(es[0], CliEffect::ShowTime));
    assert_eq!(printed(&sh.time_shown(Some(125))), vec!["02:05"]);
    assert!(sh.time_shown(None).is_empty());
    assert!(matches!(sh.apply(parse_cli("exit"))[0], CliEffect::Exit));
}

#[test]
fn shell_lists_deletes_and_plays_the_queue() {
    let mut sh = CliShell::new();
    assert_eq!(printed(&sh.apply(parse_cli("ls"))), vec!["queue is empty!"]);
    let es = sh.album_loaded(Some(album_of(3)), false);
    assert_eq!(printed(&es), vec!["track(s) inserted sucessfully type 'ls' to view it!"]);
    assert_eq!(
        printed(&sh.apply(parse_cli("ls"))),
        vec!["> 0 Band - T0 from LP", "  1 Band - T1 from LP", "  2 Band - T2 from LP"]
    );
    let es = sh.apply(parse_cli("p 1"));
    assert!(matches!(&es[0], CliEffect::Send(Command::SwitchTrack(u)) if u == "http://s/1"));
    assert_eq!(sh.queue.queue_pos, 1);
    assert_eq!(printed(&sh.apply(parse_cli("next"))), vec!["next track!"]);
    assert_eq!(sh.queue.queue_pos, 1);
    assert_eq!(printed(&sh.apply(parse_cli("prev"))), vec!["prev track!"]);
    assert_eq!(sh.queue.queue_pos, 0);
    assert_eq!(printed(&sh.apply(parse_cli("del 1"))), vec!["removed queued track with position: 1"]);
    assert_eq!(sh.queue.queue.len(), 2);
    assert_eq!(printed(&sh.apply(parse_cli("del 9"))), vec!["error: incorrect queue index!"]);
    assert_eq!(
        printed(&sh.apply(parse_cli("del x"))),
        vec!["error: delete position must be integer index"]
    );
    assert_eq!(printed(&sh.apply(parse_cli("p x"))), vec!["incorrect format!"]);
    let es = sh.apply(parse_cli("p"));
    assert_eq!(printed(&es), vec!["info: pause"]);
    assert!(matches!(es[1], CliEffect::Send(Command::Pause)));
    let es = sh.apply(parse_cli("p"));
    assert_eq!(printed(&es), vec!["info: playing"]);
    assert!(matches!(es[1], CliEffect::Send(Command::Play)));
    assert_eq!(printed(&sh.album_loaded(None, false)), vec!["error while parsing album data!"]);
}

#[test]
fn shell_searches_and_inserts() {
    let mut sh = CliShell::new();
    assert_eq!(printed(&sh.apply(parse_cli("ins 0"))), vec!["empty!"]);
    assert!(sh.apply(parse_cli("ins nonsense")).is_empty());
    let es = sh.apply(parse_cli("ins https://x.bandcamp.com/album/y"));
    assert!(matches!(&es[0], CliEffect::LoadAlbum(u, false) if u == "https://x.bandcamp.com/album/y"));
    let es = sh.apply(parse_cli("search metal"));
    assert!(matches!(&es[0], CliEffect::Search(t) if t == "metal"));
    let hit = |kind: &str, name: &str, url: &str| SearchHit {
        art_id: None,
        url: url.to_string(),
        is_label: None,
        img_id: None,
        id: None,
        stat_params: None,
        field_type: kind.to_string(),
        part: None,
        img: None,
        name: Some(name.to_string()),
        band_name: Some("B".to_string()),
        band_id: None,
    };
    let es = sh.search_found(Some(vec![
        hit("b", "Band page", "u0"),
        hit("a", "Album", "u1"),
        hit("t", "Track", "u2"),
    ]));
    assert_eq!(
        printed(&es),
        vec![
            "[0] B - Album @ u1",
            "[1] B - Track @ u2",
            "type `ins [index]` to add search result content to queue"
        ]
    );
    let es = sh.apply(parse_cli("ins 9"));
    assert!(matches!(&es[0], CliEffect::LoadAlbum(u, true) if u == "u2"));
    assert_eq!(printed(&sh.search_found(None)), vec!["not found"]);
    assert!(sh.album_loaded(Some(album_of(1)), true).is_empty());
    assert_eq!(sh.queue.queue.len(), 1);
}

#[test]
fn shell_help_and_unknown_commands() {
    let mut sh = CliShell::new();
    let help = printed(&sh.apply(parse_cli("help")));
    assert_eq!(help.len(), 14);
    assert_eq!(help[0], "command help:");
    assert_eq!(help[13], "`seek` [secs] - seek to absolute position on track");
    assert_eq!(
        printed(&sh.apply(parse_cli("dance"))),
        vec!["error: unknown command `dance` type `help` for commands"]
    );
    assert!(sh.apply(parse_cli("search")).is_empty());
    assert!(matches!(parse_cli("search"), CliCommand::Ignored));
}

#[test]
fn list_box_pages() {
    let mut l = ListBox::new(20, 5, 0, true);
    assert!(l.is_empty());
    l.add_range((0..7).map(|i| format!("line {}", i)).collect());
    l.add("line 7".to_string());
    assert_eq!(l.get_page_count(), 3);
    l.switch_page_up();
    l.switch_page_up();
    l.switch_page_up();
    assert_eq!(l.page, 3);
    l.switch_page_up();
    assert_eq!(l.page, 3);
    l.switch_page_down();
    assert_eq!(l.page, 2);
    l.page = 1;
    assert_eq!(l.sel_idx_glob(2), 7);
    assert_eq!(l.get_selected_item(2), "line 6");
    l.page = 0;
    assert_eq!(l.get_selected_item(0), "line 0");
    l.remove("line 3".to_string());
    assert_eq!(l.display, vec!["line 3"]);
    l.resize(30, 9, 4);
    assert_eq!((l.width, l.height, l.x), (30, 9, 4));
    l.clear();
    assert!(l.is_empty());
}

#[test]
fn running_text() {
    assert_eq!(run_string("short".to_string(), 10, 3), "short");
    assert_eq!(run_string("abcdefghij".to_string(), 4, 2), "cdef");
    assert_eq!(run_string("abcdefghij".to_string(), 4, 8), "ij");
    assert_eq!(run_string("abcdefghij".to_string(), 4, 20), "");
    // bytes, not characters, decide whether it runs
    assert_eq!(run_string("ééé".to_string(), 4, 1), "éé");
}

#[test]
fn screen_list_box_scrolls() {
    let mut l = listbox::ListBox::new(10, 4, true, "Tags".to_string());
    l.display = (0..5).map(|i| i.to_string()).collect();
    assert_eq!(l.get_page_count(), 3);
    l.scroll_down();
    l.scroll_down();
    assert_eq!((l.position, l.page), (2, 0));
    l.scroll_down();
    assert_eq!((l.position, l.page), (0, 1));
    l.scroll_up();
    assert_eq!((l.position, l.page), (2, 0));
    assert_eq!(l.get_selected_str(), "2");
    l.position = 1;
    l.page = 1;
    assert_eq!(l.get_selected_idx(), 3);
    l.display = vec!["a".to_string(), "b".to_string(), "a".to_string(), "c".to_string()];
    l.remove("a".to_string());
    assert_eq!(l.display, vec!["b", "c"]);
    l.remove("x".to_string());
    assert_eq!(l.display, vec!["b", "c"]);
    l.resize(20, 8);
    assert_eq!((l.position, l.width, l.height), (0, 20, 8));
    let mut boxes = vec![
        listbox::ListBox::new(10, 4, true, "a".to_string()),
        listbox::ListBox::new(10, 4, false, "b".to_string()),
    ];
    assert_eq!(listbox::get_focus_at(&boxes), 0);
    listbox::setup_focus_at(1, &mut boxes);
    assert_eq!(listbox::get_focus_at(&boxes), 1);
    assert!(!boxes[0].focused);
}

#[test]
fn frame_buffer_reads_back_what_was_written() {
    let mut fb = FrameBuffer::create(4, 3);
    assert_eq!(fb.get(3, 2), ' ');
    fb.set("hey", 1, 1);
    assert_eq!(fb.get(1, 1), 'h');
    assert_eq!(fb.get(3, 1), 'y');
    assert_eq!(fb.get(0, 1), ' ');
    fb.push_fb(vec!['x'; 12]);
    assert_eq!(fb.get(0, 0), 'x');
}

#[test]
fn state_bar_clicks() {
    assert!(aabr(0, 0, 5, 1, 2, 0, 1, 1));
    assert!(!aabr(0, 0, 2, 1, 2, 0, 1, 1));
    assert_eq!(aabr(1, 1, 3, 3, 2, 2, 1, 1), aabr(2, 2, 1, 1, 1, 1, 3, 3));
    let mut w = StateBarWidget::new();
    w.set_text("abc");
    assert_eq!(w.text, "abc");
    w.update_click(0, 0);
    let mut bar = StateBar::new(80, 24);
    assert_eq!(bar.y, 24);
    bar.widgets.push(w);
    let mut w2 = StateBarWidget::new();
    w2.set_text("de");
    bar.widgets.push(w2);
    assert_eq!(bar.widget_positions(), vec![0, 3]);
    bar.update_click(5, 0);
    bar.resize(100, 30);
    assert_eq!(bar.y, 30);
}

#[test]
fn settings_defaults_and_values() {
    let c = Config::new_from(None);
    assert_eq!(c.get_load_artworks(), 7);
    assert_eq!(c.volume, 100);
    assert_eq!(c.theme_name, "hope_diamond");
    assert!(c.get_save_queue_on_exit() && c.get_visualizer());
    assert_eq!(c.get_audio_system(), AudioSystem::Bass);
    assert_eq!(c.get_audio_device_index(), 0);
    assert_eq!(c.window_geometry, WindowGeometry::default());
    assert_eq!(WindowGeometry::default(), WindowGeometry { x: 0, y: 0, w: 900, h: 600 });
    let mut c = c;
    c.set_settings("\"3\"", "\"0\"", "\"dark\"", Some(false), None);
    assert_eq!(c.load_artworks, ArtworkThumbnailQuality::Low);
    assert_eq!(c.get_load_artworks(), 42);
    assert_eq!(c.theme_name, "dark");
    assert!(!c.save_queue_on_exit && c.visualizer);
    c.set_settings("x", "", "  ", None, None);
    assert_eq!(c.load_artworks, ArtworkThumbnailQuality::VeryHigh);
    assert_eq!(c.theme_name, "hope_diamond");
    c.set_geometry(1, 2, 3, 4);
    assert_eq!(c.window_geometry, WindowGeometry { x: 1, y: 2, w: 3, h: 4 });
    c.volume_changed("\"55\"");
    assert_eq!(c.volume, 55);
    c.volume_changed("loud");
    assert_eq!(c.volume, 100);
    c.device_changed("2");
    assert_eq!(c.get_audio_device_index(), 2);
    c.device_changed("?");
    assert_eq!(c.device_index, 0);
    assert_eq!(ArtworkThumbnailQuality::from_index(4).index(), 4);
    assert_eq!(ArtworkThumbnailQuality::VeryLow.code(), 22);
}

#[test]
fn signed_numbers_read_like_str_parse() {
    assert_eq!(parse_i32("-12"), Some(-12));
    assert_eq!(parse_i32("+12"), Some(12));
    assert_eq!(parse_i32("-2147483648"), Some(i32::MIN));
    assert_eq!(parse_i32("2147483648"), None);
    assert_eq!(parse_i32("-+1"), None);
    assert_eq!(parse_i32("-"), None);
    assert_eq!(read_value_number("\"-5\"", 9), -5);
    assert_eq!(read_value_number("nope", 9), 9);
}

#[test]
fn tui_keys() {
    let tags = vec!["Rock".to_string(), "Jazz".to_string()];
    let mut s = TuiState::new(80, 24, tags);
    assert_eq!(s.current_view, LIST_BOX_TAGS);
    // Space on the tags box selects the tag under the cursor (one before it, or the first)
    let es = s.on_key(TuiKey::Char(' '), 24);
    assert!(matches!(es.last(), Some(TuiEffect::Redraw)));
    assert_eq!(s.selected_tags, vec!["Rock"]);
    s.selected_position = 2;
    s.on_key(TuiKey::Char(' '), 24);
    assert_eq!(s.selected_tags, vec!["Rock", "Jazz"]);
    // Enter asks for release pages
    let es = s.on_key(TuiKey::Enter, 24);
    match &es[0] {
        TuiEffect::LoadDiscover(req, true) => {
            assert_eq!(req.page, 2);
            assert_eq!(req.filters.tags, vec!["Rock", "Jazz"]);
        },
        _ => panic!("expected a page request"),
    }
    // Tab moves the focus
    s.on_key(TuiKey::Tab, 24);
    assert_eq!(s.current_view, LIST_BOX_DISCOVER);
    assert!(s.listboxes[1].focused && !s.listboxes[0].focused);
    // 'q' toggles shuffle and jumps to the queue
    s.on_key(TuiKey::Char('q'), 24);
    assert!(s.queue.shuffle);
    assert_eq!(s.current_view, LIST_BOX_QUEUE);
    // 'o' with an empty queue is an error, cleared by the next key
    s.on_key(TuiKey::Char('o'), 24);
    assert!(s.error);
    assert_eq!(s.statusbar_text, "Queue list is empty!");
    let es = s.on_key(TuiKey::Other, 24);
    assert!(!s.error);
    assert_eq!(es.len(), 2);
    // volume keys
    let es = s.on_key(TuiKey::Char('w'), 24);
    assert!(es.is_empty() || matches!(es.last(), Some(TuiEffect::Redraw)));
    let es = s.on_key(TuiKey::Char('s'), 24);
    assert!(matches!(es[0], TuiEffect::Send(Command::AddVolume(99))));
    // seeking
    let es = s.on_key(TuiKey::Left, 24);
    assert!(matches!(es[0], TuiEffect::Send(Command::SeekBackwards(5000))));
    assert_eq!(s.bottom_text, "Tracking back by 5 seconds... Please wait...");
    let es = s.on_key(TuiKey::Esc, 24);
    assert!(matches!(es[0], TuiEffect::Quit));
}

#[test]
fn tui_loads_albums_and_shows_what_plays() {
    let mut s = TuiState::new(80, 24, Vec::new());
    let es = s.clipboard_read(Some("https://x.bandcamp.com/album/y".to_string()));
    assert!(matches!(&es[0], TuiEffect::LoadAlbum(u) if u == "https://x.bandcamp.com/album/y"));
    s.clipboard_read(Some("https://example.com".to_string()));
    assert_eq!(s.statusbar_text, "Clipboard contains non-bandcamp URL!");
    s.clipboard_read(None);
    assert_eq!(s.statusbar_text, "Clipboard contains invalid data!");
    s.album_loaded(Some(album_of(2)));
    assert_eq!(s.queue.queue.len(), 2);
    assert_eq!(s.listboxes[2].display, vec!["Band - T0", "Band - T1"]);
    let es = s.tick(Some(65_000), 80);
    assert!(matches!(es.last(), Some(TuiEffect::RedrawBottom)));
    assert!(s.bottom_text.starts_with("\r01:05/00:00 Band - T0 "));
    assert!(s.bottom_text.ends_with(" pos: 0 volume: 100% shuffle: false"));
    let es = s.tick(None, 80);
    assert_eq!(es.len(), 1);
    assert_eq!(s.bottom_text, "\u{2bc0} volume: 100% shuffle: false");
}

#[test]
fn bars_fill_the_terminal_width() {
    let s = status_line(40, "hi");
    assert!(s.starts_with("\u{25b6} BandcampOnlinePlayer RS | hi"));
    assert_eq!(s.chars().count(), 28 + 2 + 10);
    assert_eq!(status_line(10, "hi"), "\u{25b6} BandcampOnlinePlayer RS | hi");
    assert_eq!(bottom_line(6, "ab"), "ab    ");
    assert_eq!(bottom_line(1, "abc"), "abc");
    assert_eq!(bottom_line(5, "é"), "é   ");
}

#[test]
fn list_boxes_show_their_page() {
    let mut l = ListBox::new(20, 4, 0, true);
    l.add_range((0..7).map(|i| format!("l{}", i)).collect());
    l.page = 1;
    let v = l.visible_lines(1);
    assert_eq!(v, vec![("l3".to_string(), false), ("l4".to_string(), true), ("l5".to_string(), false)]);
    l.page = 2;
    assert_eq!(l.visible_lines(0), vec![("l6".to_string(), true)]);
    l.page = 5;
    assert!(l.visible_lines(0).is_empty());
    l.focused = false;
    l.page = 0;
    assert!(l.visible_lines(0).iter().all(|(_, m)| !m));
    let mut s = listbox::ListBox::new(10, 4, false, String::new());
    s.display = vec!["a".to_string(), "b".to_string(), "c".to_string()];
    s.position = 1;
    assert_eq!(s.visible_lines(), vec![("a".to_string(), false), ("b".to_string(), true)]);
}

#[test]
fn artwork_and_window_helpers() {
    assert_eq!(artwork_data_uri(200, b"hi"), Some("data:image/jpeg;base64,aGk".to_string()));
    assert_eq!(artwork_data_uri(200, &[0, 1, 2]), Some("data:image/jpeg;base64,AAEC".to_string()));
    assert_eq!(artwork_data_uri(404, b"hi"), None);
    assert_eq!(parse_album_data("<div data-tralbum=\"{}\"".to_string()), "{}");
    assert_eq!(parse_album_data("nothing".to_string()), "");
    assert_eq!(click_action("play-pause"), ClickAction::TogglePause);
    assert_eq!(click_action("back"), ClickAction::Back);
    assert_eq!(click_action("next"), ClickAction::Next);
    assert_eq!(click_action("volume"), ClickAction::Nothing);
    assert!(event_handled(WindowEvent::SelectValueChanged, Some("audio-device"), true));
    assert!(!event_handled(WindowEvent::SelectValueChanged, Some("audio-device"), false));
    assert!(!event_handled(WindowEvent::ButtonClick, Some("play-pause"), true));
    assert_eq!(fmt_time(61), "01:01");
}

#[test]
fn tui_enter_delete_and_track_end() {
    let mut s = TuiState::new(80, 24, Vec::new());
    s.album_loaded(Some(album_of(4)));
    // a track of unknown length is at its end: the queue moves on
    let es = s.tick(Some(1_000), 80);
    assert_eq!(es.len(), 2);
    assert!(matches!(&es[0], TuiEffect::Send(Command::SwitchTrack(u)) if u == "http://s/1"));
    assert_eq!(s.queue.queue_pos, 1);
    // Enter in the queue box plays the track under the cursor
    s.on_key(TuiKey::Char('q'), 24);
    s.selected_position = 3;
    let es = s.on_key(TuiKey::Enter, 24);
    assert!(matches!(&es[0], TuiEffect::Send(Command::SwitchTrack(u)) if u == "http://s/3"));
    assert_eq!(s.queue.queue_pos, 3);
    s.selected_position = 9;
    let es = s.on_key(TuiKey::Enter, 24);
    assert_eq!(es.len(), 1);
    assert_eq!(s.queue.queue_pos, 3);
    // Delete in the queue box pauses and stops twice and empties the box
    let es = s.on_key(TuiKey::Delete, 24);
    assert_eq!(es.len(), 6);
    assert!(matches!(es[0], TuiEffect::ClearScreen));
    assert!(matches!(es[1], TuiEffect::Send(Command::Pause)));
    assert!(matches!(es[2], TuiEffect::Send(Command::Stop)));
    assert!(matches!(es[5], TuiEffect::Redraw));
    assert!(s.listboxes[LIST_BOX_QUEUE].display.is_empty());
    assert_eq!(s.queue.queue.len(), 4);
    // Enter in the release box loads the release under the cursor
    s.on_key(TuiKey::Tab, 24);
    s.on_key(TuiKey::Tab, 24);
    assert_eq!(s.current_view, LIST_BOX_DISCOVER);
    s.selected_position = 0;
    let es = s.on_key(TuiKey::Enter, 24);
    assert_eq!(es.len(), 1);
    // 's' lowers the volume one by one down to 0, then does nothing
    let mut t = TuiState::new(80, 24, Vec::new());
    for _ in 0..100 {
        t.on_key(TuiKey::Char('s'), 24);
    }
    let es = t.on_key(TuiKey::Char('s'), 24);
    assert_eq!(es.len(), 1);
    assert_eq!(t.player.get_volume(), 0);
}

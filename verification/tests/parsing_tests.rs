use bcplayer::album_parsing::{fix_json, parse, parse_album};
use bcplayer::bop_album;
use bcplayer::cli::{parse_cli, CliCommand};
use bcplayer::model::{Data, InitialState};
use bcplayer::tags::{
    cache_text, dig_deeper_tags, discover_blob, discover_tags, page_tag_names, sorted_page_tags,
    tags_from_cache,
};
use bcplayer::text::parse_unsigned_max;

#[test]
fn fix_json_quotes_properties_joins_urls_and_drops_comments() {
    let data = "    title: \"x\",\n// note\n    url: \"http://a\" + \".com\",";
    let fixed = fix_json(data).unwrap();
    assert_eq!(fixed, "\"title\": \"x\",\n\n\"url\": \"http://a.com\",");
}

#[test]
fn fix_json_leaves_plain_json_alone() {
    assert_eq!(fix_json("{\"a\":1}").unwrap(), "{\"a\":1}");
}

#[test]
fn parse_extracts_tralbum_object() {
    let html = "<div data-tralbum=\"{&quot;a&quot;:1}\" x></div>";
    assert_eq!(parse(html), Some("{\"a\":1}".to_string()));
    assert_eq!(parse_album(html.to_string()), Some("{\"a\":1}".to_string()));
}

#[test]
fn parse_without_marker_is_none() {
    assert_eq!(parse("<html>nothing here</html>"), None);
    assert_eq!(parse("<div data-tralbum=\"{ never closed"), None);
}

#[test]
fn script_album_object_is_found() {
    let html = "<script>var TralbumData = {\n    a: 1\n};</script>";
    assert_eq!(bop_album::album_parsing(html), Some("{\n    a: 1\n}"));
    assert_eq!(bop_album::get_album_data(html), Some("\n    a: 1\n"));
    assert_eq!(bop_album::album_parsing("no script"), None);
}

#[test]
fn script_fix_json_joins_first_url_only() {
    let data = "url: \"http://a\" + \"b.com\",";
    assert_eq!(bop_album::fix_json(data).unwrap(), "url: \"http://ab.com\",");
}

const LINKS: &str = "<a href=\"/tag/rock\">x</a><a href=\"/tag/ambient\">y</a>\
<a href=\"/other\">z</a><a href=\"/tag/rock\">w</a><a href=\"/tag/hip-hop\">v</a><a>no</a>";

#[test]
fn page_tag_names_keep_page_order() {
    assert_eq!(page_tag_names(LINKS), vec!["rock", "ambient", "rock", "hip-hop"]);
}

#[test]
fn sorted_page_tags_are_sorted_and_distinct() {
    assert_eq!(sorted_page_tags(LINKS), vec!["ambient", "hip-hop", "rock"]);
}

#[test]
fn dig_deeper_tags_capitalise_sort_and_keep_alphanumeric() {
    assert_eq!(dig_deeper_tags(LINKS), vec!["Ambient", "Rock"]);
}

#[test]
fn discover_tags_filter_entries_by_id() {
    let d = |id: i32, label: &str| Data { id, label: label.to_string() };
    let st = InitialState {
        genres: vec![d(0, "all genres"), d(1, "electronic")],
        subgenres: vec![d(-1, "all electronic"), d(0, "ambient"), d(5, "house")],
        locations: vec![d(0, "anywhere"), d(3, "berlin"), d(4, "berlin")],
    };
    assert_eq!(discover_tags(&st), vec!["Ambient", "Berlin", "Electronic", "House"]);
}

#[test]
fn discover_blob_unquotes_the_state() {
    let html = "<html><div id=\"DiscoverApp\" data-blob=\"{&quot;x&quot;:1}\"></div>";
    assert_eq!(discover_blob(html), Some("{\"x\":1}".to_string()));
    assert_eq!(discover_blob("<html></html>"), None);
}

#[test]
fn cache_round_trip() {
    let tags = vec!["Ambient".to_string(), "Rock".to_string()];
    let text = cache_text(&tags);
    assert_eq!(text, "Ambient\nRock");
    assert_eq!(tags_from_cache(&text), tags);
    assert_eq!(tags_from_cache(""), vec![String::new()]);
    assert_eq!(tags_from_cache("a\n"), vec!["a".to_string(), String::new()]);
}

#[test]
fn unsigned_numbers_read_like_str_parse() {
    assert_eq!(parse_unsigned_max("42", 100), Some(42));
    assert_eq!(parse_unsigned_max("+7", 100), Some(7));
    assert_eq!(parse_unsigned_max("101", 100), None);
    assert_eq!(parse_unsigned_max("", 100), None);
    assert_eq!(parse_unsigned_max("+", 100), None);
    assert_eq!(parse_unsigned_max("4a", 100), None);
    assert_eq!(parse_unsigned_max(" 4", 100), None);
    assert_eq!(parse_unsigned_max("18446744073709551615", u64::MAX), Some(u64::MAX));
    assert_eq!(parse_unsigned_max("18446744073709551616", u64::MAX), None);
}

#[test]
fn cli_lines_are_read() {
    assert!(matches!(parse_cli("  voli 5 "), CliCommand::VolumeUp(Some(5))));
    assert!(matches!(parse_cli("voli x"), CliCommand::VolumeUp(None)));
    assert!(matches!(parse_cli("voli 70000"), CliCommand::VolumeUp(None)));
    assert!(matches!(parse_cli("voli"), CliCommand::Ignored));
    assert!(matches!(parse_cli("exit"), CliCommand::Exit));
    assert!(matches!(parse_cli("c"), CliCommand::Exit));
    assert!(matches!(parse_cli("p"), CliCommand::TogglePause));
    assert!(matches!(parse_cli("p 3"), CliCommand::PlayAt(Some(3))));
    assert!(matches!(parse_cli("seek +7"), CliCommand::Seek(Some(7))));
    assert!(matches!(parse_cli("del -1"), CliCommand::Delete(None)));
    assert!(matches!(parse_cli("help"), CliCommand::Help));
    match parse_cli("ins http://x.bandcamp.com/album/y") {
        CliCommand::Insert(None, raw) => assert_eq!(raw, "http://x.bandcamp.com/album/y"),
        _ => panic!("not an insert"),
    }
    match parse_cli("search metal") {
        CliCommand::Search(t) => assert_eq!(t, "metal"),
        _ => panic!("not a search"),
    }
    match parse_cli("foo bar") {
        CliCommand::Unknown(w) => assert_eq!(w, "foo"),
        _ => panic!("not unknown"),
    }
    match parse_cli("") {
        CliCommand::Unknown(w) => assert_eq!(w, ""),
        _ => panic!("not unknown"),
    }
    // two spaces: the argument is the empty piece between them
    assert!(matches!(parse_cli("voli  5"), CliCommand::VolumeUp(None)));
}

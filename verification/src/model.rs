//! The Bandcamp data the library reads: the album a page describes, the
//! search answers, and the discover ("dig deeper") requests and answers.
//!
//! These types hold the fields the logic reads; the JSON is read into them
//! by the program around the library.
use vstd::prelude::*;

verus! {

/// The downloadable file of a track.
#[derive(Clone, Debug, PartialEq)]
pub struct File {
    /// The URL of the 128 kbit/s MP3 stream.
    pub mp3128: Option<String>,
}

/// The release an album page is about.
#[derive(Clone, Debug, PartialEq)]
pub struct Current {
    /// The artist.
    pub artist: Option<String>,
    /// The title of the release.
    pub title: Option<String>,
}

/// One track of an album.
#[derive(Clone, Debug, PartialEq)]
pub struct Trackinfo {
    /// The title of the track.
    pub title: Option<String>,
    /// Whether the track is not released yet.
    pub unreleased_track: Option<bool>,
    /// The stream of the track, when there is one.
    pub file: Option<File>,
}

/// An album as its page describes it.
#[derive(Clone, Debug, PartialEq)]
pub struct Album {
    /// The release.
    pub current: Current,
    /// The tracks.
    pub trackinfo: Option<Vec<Trackinfo>>,
    /// The URL of the album page.
    pub url: Option<String>,
}

/// A physical edition's origin record.
#[derive(Clone, Debug, PartialEq)]
pub struct Origin {
    pub package_id: Option<i64>,
    pub quantity_available: Option<i64>,
    pub option_id: Option<i64>,
    pub id: Option<i64>,
}

/// A picture of a package.
#[derive(Clone, Debug, PartialEq)]
pub struct Art {
    pub file_name: Option<String>,
    pub image_id: Option<i64>,
    pub index: Option<i64>,
    pub id: Option<i64>,
    pub width: Option<i64>,
    pub height: Option<i64>,
}

/// The streaming limits of a page.
#[derive(Clone, Debug, PartialEq)]
pub struct PlayCapData {
    pub streaming_limits_enabled: Option<bool>,
    pub streaming_limit: Option<i64>,
}

/// Whether the collect and wishlist buttons are shown.
#[derive(Clone, Debug, PartialEq)]
pub struct TralbumCollectInfo {
    pub show_wishlist_tooltip: Option<bool>,
    pub show_collect: Option<bool>,
}

/// The genre part of a search answer (empty).
#[derive(Clone, Debug, PartialEq)]
pub struct Genre {}

/// The tag part of a search answer.
#[derive(Clone, Debug, PartialEq)]
pub struct Tag {
    pub count: i64,
    pub matches: Vec<Match>,
    pub time_ms: i64,
}

/// A tag that matches a search.
#[derive(Clone, Debug, PartialEq)]
pub struct Match {
    pub norm_name: String,
    pub display_tag_id: i64,
    pub count: i64,
    pub score: i64,
    pub display_name: String,
}

/// The autocomplete part of a search answer.
#[derive(Clone, Debug, PartialEq)]
pub struct Auto {
    pub results: Vec<Result>,
    pub stat_params_for_tag: String,
    pub time_ms: i64,
}

/// One search hit.
#[derive(Clone, Debug, PartialEq)]
pub struct Result {
    pub art_id: Option<i64>,
    pub url: String,
    pub is_label: Option<bool>,
    pub img_id: Option<i64>,
    pub id: Option<i64>,
    pub stat_params: Option<String>,
    /// The kind of hit: `t` (track), `a` (album), `b` (band).
    pub field_type: String,
    pub part: Option<String>,
    pub img: Option<String>,
    pub name: Option<String>,
    pub band_name: Option<String>,
    pub band_id: Option<i64>,
}

/// A price.
#[derive(Clone, Debug, PartialEq)]
pub struct Price {
    pub amount: i64,
    pub currency: String,
    pub is_money: bool,
}

/// An image.
#[derive(Clone, Debug, PartialEq)]
pub struct Image {
    pub id: i64,
    pub width: i64,
    pub height: i64,
}

/// The stream of a featured track.
#[derive(Clone, Debug, PartialEq)]
pub struct AudioUrl {
    /// The URL of the 128 kbit/s MP3 stream.
    pub mp3_128: String,
}

/// One release of a discover page.
#[derive(Clone, Debug, PartialEq)]
pub struct Item {
    pub tralbum_type: String,
    pub tralbum_id: i64,
    pub item_id: i64,
    /// The title of the release.
    pub title: String,
    pub art_id: i64,
    /// The artist.
    pub artist: String,
    pub band_name: String,
    pub band_url: String,
    /// The URL of the release page.
    pub tralbum_url: String,
    pub genre: String,
    pub audio_url: AudioUrl,
}

/// A discover page.
#[derive(Clone, Debug, PartialEq)]
pub struct DiscoverData {
    pub ok: bool,
    /// The releases of the page.
    pub items: Vec<Item>,
    pub more_available: bool,
}

/// The filters of a discover request.
#[derive(Clone, Debug, PartialEq)]
pub struct Filters {
    pub format: String,
    pub location: i64,
    pub sort: String,
    pub tags: Vec<String>,
}

/// A request for one page of the releases that carry some tags.
#[derive(Clone, Debug, PartialEq)]
pub struct DiscoverRequest {
    pub filters: Filters,
    pub page: i64,
}

/// The state of the discover page of bandcamp.com.
#[derive(Clone, Debug, PartialEq)]
pub struct DiscoverAppData {
    pub app_data: AppData,
}

/// The application data of the discover page.
#[derive(Clone, Debug, PartialEq)]
pub struct AppData {
    pub initial_state: InitialState,
}

/// The genres, sub-genres and locations the discover page offers.
#[derive(Clone, Debug, PartialEq)]
pub struct InitialState {
    pub genres: Vec<Data>,
    pub subgenres: Vec<Data>,
    pub locations: Vec<Data>,
}

/// One entry of the discover page's lists.
#[derive(Clone, Debug, PartialEq)]
pub struct Data {
    pub id: i32,
    pub label: String,
}

} // verus!

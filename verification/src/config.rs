//! The settings of the player: artwork quality, audio system, window
//! geometry and the rest, their defaults, and how the settings window's
//! values are read into them.
use vstd::prelude::*;

use crate::text::{chars_of, parse_unsigned_max, replace_all, replace_chars, string_from_chars, trim_chars, trimmed};

verus! {

broadcast use vstd::string::group_string_axioms;

/// The resolution of artwork thumbnails; Bandcamp picks it by a number in
/// the image URL (`https://f4.bcbits.com/img/a<ART_ID>_<NUMBER>.jpg`).
#[derive(Debug, Clone, Copy, PartialEq, Eq, Structural)]
pub enum ArtworkThumbnailQuality {
    VeryHigh,
    High,
    Medium,
    Low,
    VeryLow,
}

/// The audio back-ends.
#[derive(Debug, Clone, Copy, PartialEq, Eq, Structural)]
pub enum AudioSystem {
    Bass,
}

/// The URL number of a thumbnail quality.
pub open spec fn quality_code(q: ArtworkThumbnailQuality) -> i32 {
    match q {
        ArtworkThumbnailQuality::VeryHigh => 5,
        ArtworkThumbnailQuality::High => 7,
        ArtworkThumbnailQuality::Medium => 6,
        ArtworkThumbnailQuality::Low => 42,
        ArtworkThumbnailQuality::VeryLow => 22,
    }
}

/// The qualities in the order the settings window lists them.
pub open spec fn quality_at(i: int) -> Option<ArtworkThumbnailQuality> {
    if i == 0 {
        Some(ArtworkThumbnailQuality::VeryHigh)
    } else if i == 1 {
        Some(ArtworkThumbnailQuality::High)
    } else if i == 2 {
        Some(ArtworkThumbnailQuality::Medium)
    } else if i == 3 {
        Some(ArtworkThumbnailQuality::Low)
    } else if i == 4 {
        Some(ArtworkThumbnailQuality::VeryLow)
    } else {
        None
    }
}

/// Where a quality stands in the settings window's list.
pub open spec fn quality_index(q: ArtworkThumbnailQuality) -> i32 {
    match q {
        ArtworkThumbnailQuality::VeryHigh => 0,
        ArtworkThumbnailQuality::High => 1,
        ArtworkThumbnailQuality::Medium => 2,
        ArtworkThumbnailQuality::Low => 3,
        ArtworkThumbnailQuality::VeryLow => 4,
    }
}

/// The list's place of a quality gives the quality back.
pub proof fn lemma_quality_index_roundtrip(q: ArtworkThumbnailQuality)
    ensures
        quality_at(quality_index(q) as int) == Some(q),
{
}

impl ArtworkThumbnailQuality {
    /// The URL number of the quality.
    pub fn code(&self) -> (r: i32)
        ensures
            r == quality_code(*self),
    {
        match self {
            ArtworkThumbnailQuality::VeryHigh => 5,
            ArtworkThumbnailQuality::High => 7,
            ArtworkThumbnailQuality::Medium => 6,
            ArtworkThumbnailQuality::Low => 42,
            ArtworkThumbnailQuality::VeryLow => 22,
        }
    }

    /// Where the quality stands in the settings window's list.
    pub fn index(&self) -> (r: i32)
        ensures
            r == quality_index(*self),
    {
        match self {
            ArtworkThumbnailQuality::VeryHigh => 0,
            ArtworkThumbnailQuality::High => 1,
            ArtworkThumbnailQuality::Medium => 2,
            ArtworkThumbnailQuality::Low => 3,
            ArtworkThumbnailQuality::VeryLow => 4,
        }
    }

    /// The quality at place `i` of the settings window's list; the first
    /// one for a place off the list.
    pub fn from_index(i: i32) -> (q: ArtworkThumbnailQuality)
        ensures
            q == (match quality_at(i as int) {
                Some(x) => x,
                None => ArtworkThumbnailQuality::VeryHigh,
            }),
    {
        if i == 1 {
            ArtworkThumbnailQuality::High
        } else if i == 2 {
            ArtworkThumbnailQuality::Medium
        } else if i == 3 {
            ArtworkThumbnailQuality::Low
        } else if i == 4 {
            ArtworkThumbnailQuality::VeryLow
        } else {
            ArtworkThumbnailQuality::VeryHigh
        }
    }
}

impl AudioSystem {
    /// The number of the audio system.
    pub fn code(&self) -> (r: i32)
        ensures
            r == 0,
    {
        0
    }

    /// The audio system with number `i`; the first one for any other.
    pub fn from_index(i: i32) -> (a: AudioSystem)
        ensures
            a == AudioSystem::Bass,
    {
        AudioSystem::Bass
    }
}

/// The place and size of the window.
#[derive(Debug, Clone, Copy, PartialEq, Eq, Structural)]
pub struct WindowGeometry {
    pub x: i32,
    pub y: i32,
    pub w: i32,
    pub h: i32,
}

impl Default for WindowGeometry {
    /// At the corner, 900 by 600.
    fn default() -> (g: Self)
        ensures
            g == (WindowGeometry { x: 0, y: 0, w: 900, h: 600 }),
    {
        WindowGeometry { x: 0, y: 0, w: 900, h: 600 }
    }
}

/// The settings.
pub struct Config {
    /// The thumbnail quality.
    pub load_artworks: ArtworkThumbnailQuality,
    /// The window's place and size.
    pub window_geometry: WindowGeometry,
    /// The volume in percent.
    pub volume: u16,
    /// Whether the queue is saved on exit.
    pub save_queue_on_exit: bool,
    /// The name of the colour theme.
    pub theme_name: String,
    /// The audio back-end.
    pub audio_system: AudioSystem,
    /// The audio output device.
    pub device_index: usize,
    /// Whether the visualizer is on.
    pub visualizer: bool,
}

/// The theme used when none is given.
pub open spec fn default_theme() -> Seq<char> {
    "hope_diamond"@
}

/// Whether `c` holds the default settings.
pub open spec fn is_default(c: Config) -> bool {
    &&& c.load_artworks == ArtworkThumbnailQuality::High
    &&& c.volume == 100
    &&& c.window_geometry == (WindowGeometry { x: 0, y: 0, w: 900, h: 600 })
    &&& c.save_queue_on_exit
    &&& c.theme_name@ == default_theme()
    &&& c.audio_system == AudioSystem::Bass
    &&& c.device_index == 0
    &&& c.visualizer
}

/// The number `str::parse::<i32>` reads from `s`: an optional sign and one
/// or more ASCII digits, within the range of `i32`.
pub open spec fn parse_i32_spec(s: Seq<char>) -> Option<int> {
    if s.len() > 0 && s[0] == '-' {
        let body = s.drop_first();
        if body.len() > 0 && crate::text::all_digits(body) && crate::text::digits_value(body)
            <= 0x8000_0000 {
            Some(-crate::text::digits_value(body))
        } else {
            None
        }
    } else {
        match crate::text::parse_unsigned(s) {
            Some(n) => if n <= 0x7fff_ffff {
                Some(n as int)
            } else {
                None
            },
            None => None,
        }
    }
}

/// Reads an `i32` as `str::parse` does.
pub fn parse_i32(s: &str) -> (r: Option<i32>)
    ensures
        match r {
            Some(v) => parse_i32_spec(s@) == Some(v as int),
            None => parse_i32_spec(s@) is None,
        },
{
    let v = chars_of(s);
    if v.len() > 0 && v[0] == '-' {
        if v.len() > 1 && v[1] == '+' {
            assert(!crate::text::all_digits(s@.drop_first())) by {
                assert(s@.drop_first()[0] == '+');
            }
            return None;
        }
        let mut rest: Vec<char> = Vec::new();
        let mut i: usize = 1;
        while i < v.len()
            invariant
                1 <= i <= v.len(),
                rest@ == v@.subrange(1, i as int),
            decreases v.len() - i,
        {
            rest.push(v[i]);
            i = i + 1;
            assert(rest@ =~= v@.subrange(1, i as int));
        }
        assert(rest@ =~= s@.drop_first());
        let rs = string_from_chars(rest.as_slice());
        proof {
            if rest@.len() > 0 {
                assert(rest@[0] != '+');
            }
        }
        match parse_unsigned_max(rs.as_str(), 0x8000_0000) {
            Some(n) => {
                let m: i64 = 0i64 - (n as i64);
                Some(m as i32)
            },
            None => None,
        }
    } else {
        match parse_unsigned_max(s, 0x7fff_ffff) {
            Some(n) => Some(n as i32),
            None => None,
        }
    }
}

/// `s` without its double quotes.
pub open spec fn unquoted(s: Seq<char>) -> Seq<char> {
    replace_all(s, seq!['"'], Seq::empty())
}

/// The number a settings-window value `text` holds once its quotes are
/// removed, or `default` when it holds none.
pub open spec fn value_number(text: Seq<char>, default: i32) -> i32 {
    match parse_i32_spec(unquoted(text)) {
        Some(n) => n as i32,
        None => default,
    }
}

/// Reads the number in a settings-window value: its quotes are removed and
/// the rest is read as an `i32`; `default` when that fails.
pub fn read_value_number(text: &str, default: i32) -> (r: i32)
    ensures
        r == value_number(text@, default),
{
    let v = chars_of(text);
    let mut q: Vec<char> = Vec::new();
    q.push('"');
    let nothing: Vec<char> = Vec::new();
    let u = replace_chars(&v, &q, &nothing);
    assert(q@ =~= seq!['"']);
    let us = string_from_chars(u.as_slice());
    match parse_i32(us.as_str()) {
        Some(n) => n,
        None => default,
    }
}

impl Config {
    /// The default settings: high-quality thumbnails, full volume, the
    /// default window, queue saved on exit, the default theme, BASS, the
    /// first device, visualizer on.
    pub fn defaults() -> (c: Config)
        ensures
            is_default(c),
    {
        Config {
            load_artworks: ArtworkThumbnailQuality::High,
            volume: 100,
            window_geometry: WindowGeometry::default(),
            save_queue_on_exit: true,
            theme_name: "hope_diamond".to_string(),
            audio_system: AudioSystem::Bass,
            device_index: 0,
            visualizer: true,
        }
    }

    /// The settings to use given what was read from the configuration file:
    /// those settings, or the defaults when none could be read.
    pub fn new_from(loaded: Option<Config>) -> (c: Config)
        ensures
            match loaded {
                Some(l) => c == l,
                None => is_default(c),
            },
    {
        match loaded {
            Some(l) => l,
            None => Config::defaults(),
        }
    }

    /// Takes the values of the settings window: the thumbnail quality's and
    /// the audio system's places in their lists (quoted numbers), the theme,
    /// and the two switches (none: on). A blank theme gives the default one.
    pub fn set_settings(
        &mut self,
        load_artworks_value: &str,
        audio_system_value: &str,
        theme_value: &str,
        save_queue_on_exit: Option<bool>,
        visualizer: Option<bool>,
    )
        ensures
            final(self).load_artworks == (match quality_at(
                value_number(load_artworks_value@, 0) as int,
            ) {
                Some(x) => x,
                None => ArtworkThumbnailQuality::VeryHigh,
            }),
            final(self).audio_system == AudioSystem::Bass,
            final(self).save_queue_on_exit == (match save_queue_on_exit {
                Some(b) => b,
                None => true,
            }),
            final(self).visualizer == (match visualizer {
                Some(b) => b,
                None => true,
            }),
            final(self).theme_name@ == (if trimmed(unquoted(theme_value@)).len() > 0 {
                unquoted(theme_value@)
            } else {
                default_theme()
            }),
            final(self).window_geometry == old(self).window_geometry,
            final(self).volume == old(self).volume,
            final(self).device_index == old(self).device_index,
    {
        let la = read_value_number(load_artworks_value, 0);
        let _ab = read_value_number(audio_system_value, 0);
        let tv = chars_of(theme_value);
        let mut q: Vec<char> = Vec::new();
        q.push('"');
        let nothing: Vec<char> = Vec::new();
        let theme = replace_chars(&tv, &q, &nothing);
        assert(q@ =~= seq!['"']);
        self.load_artworks = ArtworkThumbnailQuality::from_index(la);
        self.save_queue_on_exit = match save_queue_on_exit {
            Some(b) => b,
            None => true,
        };
        self.visualizer = match visualizer {
            Some(b) => b,
            None => true,
        };
        self.audio_system = AudioSystem::Bass;
        let t = trim_chars(&theme);
        self.theme_name = if t.len() > 0 {
            string_from_chars(theme.as_slice())
        } else {
            "hope_diamond".to_string()
        };
    }

    /// The URL number of the thumbnail quality.
    pub fn get_load_artworks(&self) -> (r: i32)
        ensures
            r == quality_code(self.load_artworks),
    {
        self.load_artworks.code()
    }

    /// The audio back-end.
    pub fn get_audio_system(&self) -> (r: AudioSystem)
        ensures
            r == self.audio_system,
    {
        self.audio_system
    }

    /// Whether the queue is saved on exit.
    pub fn get_save_queue_on_exit(&self) -> (r: bool)
        ensures
            r == self.save_queue_on_exit,
    {
        self.save_queue_on_exit
    }

    /// Whether the visualizer is on.
    pub fn get_visualizer(&self) -> (r: bool)
        ensures
            r == self.visualizer,
    {
        self.visualizer
    }

    /// Records the window's place and size.
    pub fn set_geometry(&mut self, x: i32, y: i32, w: i32, h: i32)
        ensures
            final(self).window_geometry == (WindowGeometry { x, y, w, h }),
            final(self).load_artworks == old(self).load_artworks,
            final(self).volume == old(self).volume,
            final(self).save_queue_on_exit == old(self).save_queue_on_exit,
            final(self).theme_name == old(self).theme_name,
            final(self).audio_system == old(self).audio_system,
            final(self).device_index == old(self).device_index,
            final(self).visualizer == old(self).visualizer,
    {
        self.window_geometry.x = x;
        self.window_geometry.y = y;
        self.window_geometry.w = w;
        self.window_geometry.h = h;
    }

    /// The audio output device.
    pub fn get_audio_device_index(&self) -> (r: usize)
        ensures
            r == self.device_index,
    {
        self.device_index
    }

    /// Takes the volume slider's value (a quoted number; full volume when it
    /// holds none), cut to 16 bits as the player keeps it.
    pub fn volume_changed(&mut self, value: &str)
        ensures
            final(self).volume == (value_number(value@, 100) as u16),
            final(self).load_artworks == old(self).load_artworks,
            final(self).window_geometry == old(self).window_geometry,
            final(self).save_queue_on_exit == old(self).save_queue_on_exit,
            final(self).theme_name == old(self).theme_name,
            final(self).audio_system == old(self).audio_system,
            final(self).device_index == old(self).device_index,
            final(self).visualizer == old(self).visualizer,
    {
        let v = read_value_number(value, 100);
        self.volume = v as u16;
    }

    /// Takes the chosen output device's number (the first device when the
    /// text holds no number).
    pub fn device_changed(&mut self, id: &str)
        ensures
            final(self).device_index == (match crate::cli::parse_upto(id@, usize::MAX as nat) {
                Some(n) => n as usize,
                None => 0usize,
            }),
            final(self).volume == old(self).volume,
            final(self).load_artworks == old(self).load_artworks,
            final(self).window_geometry == old(self).window_geometry,
            final(self).save_queue_on_exit == old(self).save_queue_on_exit,
            final(self).theme_name == old(self).theme_name,
            final(self).audio_system == old(self).audio_system,
            final(self).visualizer == old(self).visualizer,
    {
        self.device_index = match parse_unsigned_max(id, usize::MAX as u64) {
            Some(n) => n as usize,
            None => 0,
        };
    }
}

/// An event of the settings window, with what the settings read of it.
pub enum ConfigEvent {
    /// A button was clicked: its id (none when it has none) and the text of
    /// its value.
    ButtonClick(Option<String>, String),
    /// A selection changed: the id of the list (empty when it has none),
    /// whether the event is in its sinking phase, and the `value` attribute
    /// of the list's second child (empty when it has none).
    SelectValueChanged(String, bool, String),
    /// The window is about to close.
    DocumentCloseRequest,
    /// Any other event.
    Other,
}

/// The device number a selection's value gives: the first device when it
/// holds no number.
pub open spec fn device_number(id: Seq<char>) -> usize {
    match crate::cli::parse_upto(id, usize::MAX as nat) {
        Some(n) => n as usize,
        None => 0usize,
    }
}

impl Config {
    /// Reacts to an event of the settings window. Returns whether the event
    /// was handled, and whether the settings are to be saved: a click on the
    /// volume slider sets the volume; choosing an output device (in the
    /// sinking phase) sets the device; closing the window asks for a save.
    pub fn on_event(&mut self, event: ConfigEvent) -> (r: (bool, bool))
        ensures
            match event {
                ConfigEvent::ButtonClick(id, value) => if id matches Some(i) && i@ == "volume"@ {
                    &&& r == (true, false)
                    &&& final(self).volume == (value_number(value@, 100) as u16)
                    &&& final(self).load_artworks == old(self).load_artworks
                    &&& final(self).window_geometry == old(self).window_geometry
                    &&& final(self).save_queue_on_exit == old(self).save_queue_on_exit
                    &&& final(self).theme_name == old(self).theme_name
                    &&& final(self).audio_system == old(self).audio_system
                    &&& final(self).device_index == old(self).device_index
                    &&& final(self).visualizer == old(self).visualizer
                } else {
                    r == (false, false) && *final(self) == *old(self)
                },
                ConfigEvent::SelectValueChanged(id, sinking, value) => {
                    &&& r == (false, false)
                    &&& if id@ == "audio-device"@ && sinking {
                        &&& final(self).device_index == device_number(value@)
                        &&& final(self).volume == old(self).volume
                        &&& final(self).load_artworks == old(self).load_artworks
                        &&& final(self).window_geometry == old(self).window_geometry
                        &&& final(self).save_queue_on_exit == old(self).save_queue_on_exit
                        &&& final(self).theme_name == old(self).theme_name
                        &&& final(self).audio_system == old(self).audio_system
                        &&& final(self).visualizer == old(self).visualizer
                    } else {
                        *final(self) == *old(self)
                    }
                },
                ConfigEvent::DocumentCloseRequest => r == (false, true) && *final(self) == *old(self),
                ConfigEvent::Other => r == (false, false) && *final(self) == *old(self),
            },
    {
        match event {
            ConfigEvent::ButtonClick(id, value) => {
                match id {
                    Some(i) => {
                        if crate::cli_shell::string_is(&i, "volume") {
                            self.volume_changed(value.as_str());
                            return (true, false);
                        }
                    },
                    None => {},
                }
                (false, false)
            },
            ConfigEvent::SelectValueChanged(id, sinking, value) => {
                if crate::cli_shell::string_is(&id, "audio-device") && sinking {
                    self.device_changed(value.as_str());
                }
                (false, false)
            },
            ConfigEvent::DocumentCloseRequest => (false, true),
            ConfigEvent::Other => (false, false),
        }
    }
}

} // verus!

//! A library for browsing and queueing Bandcamp albums and driving BASS
//! playback: page parsing, play queues, playback bookkeeping, BASS codes
//! and flags, and the state of the terminal front-end.
use vstd::prelude::*;

pub mod album_parsing;
pub mod artwork;
pub mod audio_thread;
pub mod bass_channel;
pub mod bass_error;
pub mod bass_flags;
pub mod bass_init;
pub mod bass_player;
pub mod bop_album;
pub mod channel;
pub mod cli;
pub mod cli_shell;
pub mod config;
pub mod console_ui;
pub mod cli_drawing;
pub mod cli_optimized;
pub mod discover;
pub mod flag_table;
pub mod len_traits;
pub mod listbox;
pub mod media_player;
pub mod model;
pub mod playback;
pub mod queue;
pub mod statebar;
pub mod tag_order;
pub mod tags;
pub mod text;
pub mod tui;

verus! {

} // verus!

# bcplayer

A player for Bandcamp: it browses releases by tag, queues albums and plays
their streams through the BASS audio library, in one of three terminal
interfaces.

- `src/` is the verified library (Verus). It holds the page parsing
  (album data, tag lists, the tag cache), the play queue, the playback
  bookkeeping (clock, volume, seeking, the audio thread's decisions), the
  BASS error codes, flags and return values, the settings, the list boxes
  and bars of the terminal interfaces, and the state machines of the
  interfaces: each takes an event (a command, a key, a loaded page) and
  answers with its new state and the effects to carry out.
- `app/` is the program around it: argument handling, HTTP requests, JSON
  and TOML decoding, the settings and cache files, the terminal, the
  clipboard, the web browser and the BASS calls that take pointers or
  floating-point values.
- `tests/` runs the library on concrete values.

Run `bcplayer tui` for the full-screen interface or `bcplayer console` for
the frame-based one; any other argument, or none, starts the line-oriented
one (`help` lists its commands).

# AEC Bridge

AEC Bridge cleans a microphone of the echo of what is being played, and hands it to other programs
through a virtual cable. It reads the microphone and a reference of the playback, cancels the echo
with `sonora`, and renders the result to the cable. A command line and a control panel run it.

The library (`src/`) holds what the bridge decides and computes, verified with Verus:

- `text`, `samples`, `clock`: texts, sample layouts and byte order, moments of a session.
- `devices`: what is known of audio devices, which of them the bridge can use, how a selector names
  one, and what the `list` and `check` commands show.
- `wasapi_io`: what a stream must look like, what a captured packet brings, what a rendering buffer
  receives.
- `ring`: the ends of the sample queues between the audio threads (`ringbuf`).
- `engine`: setting the echo canceller up (`sonora`).
- `processor`: what the processing thread takes next, and where its result goes.
- `bridge`, `supervisor`: the plan, the rings, the counters and the supervision of a bridge.
- `tray`, `startup`: the icon in the notification area, and how the program is opened.
- `gui`: the settings, the state and the decisions of the control panel. `gui::laws` states what
  holds of it whatever happens.

Samples are held as the bit patterns of their floating-point values; the library moves them and does
not compute with them.

The programs (`app/`) are ordinary Rust around the library: windows, threads, audio streams, the
arithmetic on samples, storage and the command line. Their audio streams need Windows.

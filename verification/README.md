# recast_core

The verified core of the Recast desktop backend, written in Verus. The
decisions that the backend makes on integers and text between its I/O steps
live in `src/`, each with a contract that Verus proves: command lines,
queues, state machines, names and paths, error lines. What is left in `app/`
is the shell that talks to the file system, the network, FFmpeg and the UI,
and the work done in floating point (media timing and geometry, gains). Some
parts of the backend have no counterpart here at all: the validation and
repair of a render state, which is floating-point work, and the
project-document journal, which rests on a crate that is not part of this
build.

## Layout

- `src/text.rs`, `src/paths.rs`: character-level text building blocks
  (decimal and hex rendering, trimming, search, UTF-8 length, ordering) and
  the few `std::path` questions the library asks.
- `src/binary32.rs`: integer arithmetic that reproduces single-precision
  rounding, so the screenshot downscale gives the same pixel sizes as a
  binary32 computation.
- `src/types.rs`: the shared data types (capture intent, settings, GIF
  settings, editor session).
- `src/editor_session.rs`: the per-project write-lock and its lock file.
- `src/control.rs`: the CLI control channel: intent patches, routing,
  methods, watch groups, tokens.
- `src/profiles.rs`: recording profiles and applying them to the intent.
- `src/export/`: the export pipeline's FFmpeg command: input numbering,
  track alignment, the audio graph, codec arguments, the output tail, the
  two-pass GIF, the stderr ring, the stall watchdog and the verdict on an
  encode.
- `src/export_queue.rs`: the serial export queue and its lifecycle.
- `src/cloud.rs`, `src/cloud_upload.rs`: Recast Cloud error lines, the
  local upload manifest and the upload as a state machine.
- `src/assets.rs`, `src/music.rs`: hash-checked asset installs and music
  cache names.
- `src/system.rs`, `src/screenshot.rs`, `src/recordings.rs`, `src/ffmpeg.rs`:
  capture capabilities, devices, renames, screenshots, library listings and
  FFmpeg filter graphs and diagnostics.
- `app/`: JSON wire and file formats, the FFmpeg and upload drivers, and the
  floating-point media math.
- `tests/`: executable tests of the library.

Laws that span several functions are public proof functions named `law_*`.

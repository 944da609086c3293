# dcc_cua

The decision core of a Computer Use runtime, and of the client that talks to
its host, written in Rust and proved with Verus.

A runtime of this kind lets an agent look at one exact window and act in it.
What goes wrong there goes wrong between the calls: an action that rests on a
screenshot of another window, a second click after a timeout, a frame from
before the action taken for one after it. The library holds those decisions as
plain state and functions from state and event to next state and request, and
states what each of them does.

- `src/` is the library. Sessions are in `session*.rs`, the frames of a window
  in `live_observation.rs`, `pixel_observation.rs` and `window_capture.rs`,
  recordings in `recording.rs` and `session_health.rs`, the worker's channel in
  `private_worker.rs`, drags in `drag_sequences.rs`, the host client in
  `client*.rs`, and the tools of content-creation applications in `dcc_*.rs`.
  `json.rs` and `text.rs` hold what the others compute on.
- `tests/` runs the library with the real outside crates.
- `app/` is ordinary Rust around the library: streams, processes, timers, and
  the loops that carry out what the library asks for. The native driver and the
  platform come in through the trait in `app/native.rs`.

A run is a value that says what it needs next (`request`) and takes the answer
in (`advance`). An answer to something else changes nothing. The properties
that hold over several steps are the public proof functions whose names begin
with `law_`.

What is not proved is what the outside crates do. Each call into one of them
stands behind a small function marked `external_body`, with a comment that says
what is believed of it: JSON parsing, base64, PNG decoding, fresh identifiers,
lossy UTF-8, and two functions of the standard library on text.

# led_service2

An LED panel display service: it receives images over gRPC and shows them on
an RGB LED matrix (or, for development, in an emulator window). The rules of
the service are a library verified with Verus; the program around it is
ordinary Rust.

## Layout

- `src/` — the verified library.
  - `limits.rs` — image, panel and render-buffer budgets.
  - `config.rs` — the configuration read from environment values, with defaults.
  - `text.rs` — byte-level text predicates and decimal parsing.
  - `mime.rs` — GIF and PPM recognition, display-mode resolution, MIME guessing.
  - `request.rs` — admission of `SendImage` requests and the status of refusals.
  - `client.rs` — the command-line rules of the client.
  - `raster.rs` — the scaling that samples an image into a panel canvas, and frames.
  - `playback.rs` — the scroll and animation state machines, with their laws.
  - `present.rs` — preparing an image or animation, and the passes of its playback:
    each says which frame the caller renders next.
  - `decode.rs` — decoding within the decoded-byte and frame budgets (through `image`).
  - `work.rs` — cancellation and deadlines.
  - `worker.rs` — the decisions of the display worker, and the steps of one
    request (eye-catch, jingle, main image) as a state machine.
  - `backend.rs` — the emulator's magnified screen and the LED matrix settings.
  - `audio.rs` — choosing the USB sound card and the WAV sample layout.
- `tests/` — tests of the library.
- `app/` — the server and client programs: gRPC, threads, the display loop,
  the emulator window, the LED matrix and audio output.

Times in the library are whole milliseconds on a monotonic clock.

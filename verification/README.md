# wayvr input core

The decision logic of WayVR's client-input threads and compositor commit
path, written in Verus and proved against its contracts.

- `src/event.rs` — the event type sent from the capture threads (pointer
  deltas carried as `f64` bit patterns).
- `src/key_combiner.rs` — modifier tracking and the Meta+Z / Meta+X debug
  chords, with laws on event sequences.
- `src/libinput_client.rs` — exclusive-grab bookkeeping (`GrabState`), the
  routing of libinput events (`LibInputApplication`), virtual-device and
  `input`-group detection.
- `src/wayland_client.rs` — the state machine of the Wayland overlay client
  that captures keyboard and pointer input.
- `src/compositor.rs` — buffer-transform mapping, the plan of a surface commit,
  the popup initial-configure decision, and the compositor-side key logger.
- `src/text.rs` — verified substring and whitespace-word search.
- `app/` — the threads themselves: libinput polling, ioctl grabs, the Wayland
  event loop, and the channel to the consumer.

# mpris_bridge

The bridge between a music player and the media session of the desktop. On Linux
the player is shown on the session bus (MPRIS), on macOS as Now Playing.

`src/` is the verified library: everything that decides or computes.

- `payload`: what the player hands over, and what the desktop asks of it.
- `span`, `time`, `text`: time spans, bus times, and rules on text.
- `metadata`: the MPRIS metadata of a track.
- `artwork`: the cache of cover images: file names, storing, throttled cleanup.
- `control`: commands of the desktop as control events, and their queue.
- `bridge`: the snapshots and events between the player and the session task.
- `session`: the task that keeps the session bus in step with the player.
- `now_playing`: what a snapshot does to the Now Playing information.

`app/` performs what the library decides: D-Bus, AppKit, files, and the local
executor. `tests/` runs the library with the crates that it calls.

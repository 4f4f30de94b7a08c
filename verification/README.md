# vizr

The signal engine of VIZR, a terminal telemetry visualizer, verified with Verus.
Input lines (stdin, files, `ping`, `cargo build`) and a synthetic generator are
turned into four bounded metrics (energy, stability, anomaly, sync rate), three
sliding graphs, a timestamped event feed and an animated glyph matrix.

Layout:

- `src/text.rs` — whitespace, trimming, substring search and prefix tests over chars.
- `src/rng.rs` — the 64-bit linear congruential generator.
- `src/mode.rs` — adapters, command-line selection, labels, flavour rotation.
- `src/state.rs` — the engine state, its mathematical view, samples and the feed.
- `src/ping.rs` — reading a round trip out of a `ping` line.
- `src/ingest.rs` — per-adapter rules that turn a line into a sample.
- `src/synthetic.rs` — one step of the synthetic stream.
- `src/engine.rs` — a whole frame, and key handling.
- `src/matrix.rs` — the render matrix.
- `src/display.rs` — colours, header frames, the visible feed.
- `src/laws.rs` — properties of the engine as a whole.
- `app/main.rs` — the terminal program: input threads, the clock, drawing with
  ratatui and crossterm, and the two floating-point formulas (ping readings and
  the sine wave), which it hands to the engine as functions.

# softwane

The verified core of a break reminder that slowly tints the screen as a
work session runs out, holds the tint through the break, and fades it
away afterwards.

`src/` is checked by Verus:

- `timer`, `phase_timer` — the session timers and their laws (commands never
  push time forward, the Preview ratio stays a number in [0, 1] with NaN
  read as zero, time moves only the timed phases).
- `channels`, `channel_system`, `channel_config` — the sensory channels
  (saturation, colour temperature, brightness), their curves' parameters,
  and the conflict rules between them per platform.
- `engine`, `frame` — one engine frame: routing inbound events, the order in
  which the timer and the channels consume them, the shutdown drain.
- `session` — the wall-clock session engine with its phase cycle.
- `shortcuts` — binding validation, hotkey identifiers, routing of presses,
  and the apply protocol that rolls back to the previous table on failure.
- `tray`, `i18n`, `text` — menu texts and flags, locales, string helpers.
- `window`, `settings`, `observability` — window close bookkeeping, stored
  settings, the event log's path.
- `renderer`, `platform`, `warmth` — which renderer runs, when a frame is
  applied, which channel feeds which transform input, the saturation
  filter's remembered bucket, ICC `XYZ ` tags, hot-plug reconciliation, and
  apply-with-recovery (a failed frame is followed by the neutral frame).
- `float_bits` — the few `f64` facts the core needs, on bit patterns.

`app/` is a headless runner: the clock, threads and terminal, the
floating-point curves and colour matrices, and the JSON forms of the types.

# loopw

The platform-independent logic of LoopW, a radial window manager, written
in Verus: every function in `src/` carries a contract that the verifier
proves, and the properties that span several functions are stated and
proved as `law_*` proof functions.

## Layout

- `src/engine/` — window actions and their names and tokens, command
  parsing, frame math (halves, thirds, fourths, fill, fit, resize), drag
  snapping, directional and stack navigation, padding, radial wedges and
  targets, keybind matching, cycling, stash frames, rebasing and window
  identity.
- `src/settings/` — the settings model and its defaults, normalization
  (clamps, id repair, exclusion lists, stash records, colors), load
  classification and the commit decision.
- `src/ui/` — settings-window and runtime decisions: section labels,
  presets, target choices, edits, the command plan, the event step of the
  resident runtime (trigger hold and release, keybind targets, key
  capture, status lines), the runtime cadence and the tray menu placement.
- `src/text.rs` — character helpers: trimming, case folding, digits.
- `tests/` — tests of the library on concrete values.
- `app/` — a command-line front end: settings file access (JSON, atomic
  save), the floating-point parts of geometry and settings clamping,
  running one command against the saved settings, and the glue through
  which a window layer feeds events to the runtime step.

Floating-point settings are carried in the library as IEEE-754 bit patterns;
those with fixed bounds are clamped by their patterns, and the inner radial
radius, whose bound is computed from the outer one, is clamped by the
application layer.

# obs-rs (verified core)

The logic of a Rust binding to the OBS Studio plugin API, written in Verus
and proved against its contracts.

- `src/` — the verified library: pixel-format frame layouts, audio and video
  buffers, encoder packets and capability sets, the registration records
  built for sources, outputs, encoders and services (with the libobs flags
  derived from the enabled callbacks), what an instance's creation comes
  to, settings-panel properties, the
  `log`-to-OBS routing decisions, frontend event and save-callback
  decisions, type enumeration, the build-time OBS version readers and
  selection, and the macOS link-directive selection.
- `app/` — what stays outside the proofs: the `log::Log` implementation
  that calls libobs's `blog`, floating-point sRGB and number-property
  helpers, the `enumflags2` view of encoder capabilities, and the
  file-system, process and environment probing of the build.
- `tests/` — executable tests of the library.

Calls into libobs itself (the C library) are not part of this crate.

# crystal_viz

The decision logic of a crystal-field visualizer, written in Verus and
verified: `src/` is the library, each public function with a contract and the
cross-function laws as public proof functions (`law_*`).

- `seq` — step sequencer: play modes, mute/probability/cycle-condition gates,
  step editing; `trip`, `lfo`, `routing` — trip level and the LFO routing it
  selects; `tour` — tour styles, cross-fade order, curated scene picks.
- `poscar` — the POSCAR reader (lines, tokens, the `f32`/integer token
  grammars of `str::parse`), returning number tokens for the caller to convert.
- `morph` — pairing the reciprocal vectors of two fields; `kpath` — k-point
  walks; `symmetry`, `species` — crystal systems and element symbols.
- `preset` — preset shape checks and the seeded random-preset generator
  (with exact emulation of the `f32` index picks it makes).
- `midi`, `modes`, `bench`, `cli`, `text` — MIDI parsing, the mode catalogue,
  benchmark settings and run stamp, command-line pieces, number rendering.
  The mode catalogue holds 46 modes (`MODE_COUNT`), one per shader dispatch
  case.

`tests/` exercises the library; `app/` is a small command-line front end
(POSCAR loading into `f32` crystals, preset JSON through serde, frame
mirroring). The GPU viewer and renderer are not part of this crate.

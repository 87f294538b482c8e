# ad_core

The rules engine of an incremental game (Antimatter Dimensions' prestige
layers), verified with Verus.

- `src/` — the verified library. `GameState` holds every discrete quantity of
  a game: purchase counts, challenge and run flags, unlock bits, the Time
  Study and achievement lists, the glyph inventory. Each operation states in
  its contract exactly how it changes that state. Where a rule compares one
  of the game's big floating-point amounts (antimatter, Infinity Points, …)
  with a threshold, the operation takes the outcome of that comparison as a
  plain `bool` or integer (`at_goal`, `affordable`, `max_am_exponent`, …).
  `src/laws.rs` states and proves the properties that span operations.
- `tests/` — tests of the library on concrete values.
- `app/` — the floating-point side of the game, built on `break_infinity`:
  the amounts and their formulas (Infinity and Eternity Point gains, the
  cost curve and Antimatter Dimension costs, the glyph random stream and
  rolls, the Dark Matter economy, Pelle's Rifts), the glue that turns
  amount comparisons into the library's plain arguments, and serialisable
  copies of library types.

# Bas Veeg Arc

The rules of the beat 'em up Bas Veeg Arc as a library verified with Verus,
and the game window around it.

- `src/` is the library. Every function in it is verified: progression
  (the character roster and abilities, account levels and prestige, achievements, daily and weekly challenges,
  character mastery, skill trees), the shop, the co-op player slots, revives and
  team combo, the combo list and combo counter, the input buffer, frame data and
  movesets, super moves, the plane's take-off, landing and bombs, boss phases,
  training-mode recording, match replays and statistics, the mixer's channels
  and music crossfades, the entity bookkeeping of the game world, and the
  catalogues of voice lines, combos, achievements, skill trees, challenge
  templates and mastery milestones. Quantities the game keeps as fractions
  (experience, damage, meters, timers) are not part of it; where the library
  needs a fraction it holds whole units (milliseconds, hundredths).
- `tests/` runs the library on concrete values.
- `app/` is the game: the window and frame loop, keyboard reading, files on
  disk, the fractional side of progression, combat and audio, component
  storage and the systems run on it, the computer opponents, replay files
  and visual effects.

`src/rng.rs` holds the one call into another crate that the library makes:
macroquad's random number generator, whose contract is trusted.

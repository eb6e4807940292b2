# forge_lib

The rules of Forge, a 2D platformer built on Godot, as a library verified
with Verus, and the Godot extension around it.

- `src/` — the verified library: the player's state machine (`states/`) and
  the frame loop that feeds it (`player.rs`), the enemy decision engine and
  state machine (`monster/`), level transitions and markers, the pause menu,
  music track switching, save slots and persistent flags, and the entity
  rules (doors, switches, input hints, edge detection, the training dummy).
  Time is counted in whole microseconds; whatever the engine measures as a
  float (velocities, positions) reaches the library as the comparisons the
  rules need.
- `app/` — the Godot classes: they poll the engine, call the library and
  carry out the effects it returns (animations, sounds, velocities, scene
  changes, files).
- `tests/` — tests of the library on concrete values.

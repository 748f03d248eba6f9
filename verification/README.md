# doukutsu_core

The game logic of a Cave Story engine, written in Verus and proved against
its contracts: save files of the freeware game and of Cave Story+ (reading,
writing, slot names, best times), profiles, the text script byte format,
settings defaults and upgrades, and the per-tick behaviour of many NPCs and
bosses, each stated as a step function of the entity and the game state.

Layout:

- `src/` — the verified library. Each NPC tick is a method whose `ensures`
  equates the new entity and the requests it makes of the game (sounds,
  spawns, carets, quakes) with a spec function of the old ones.
- `tests/` — executable tests of the library on concrete values.
- `app/` — the unverified edge: file access, serde copies of the settings,
  and the application of settings resets that involve floating point.

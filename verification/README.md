# openjill-game

The game logic of a Jill of the Jungle engine, written in Verus and proved
against its contracts: the player's state machine, the enemies and hazards,
pickups and mechanisms, background collision, the object factory and its
save records, key bindings, and the rules around saving, restoring and
moving between screens.

## Layout

- `src/` — the verified library.
  - `world.rs`, `record.rs`, `layout.rs`, `rng.rs` — shared values: boxes,
    messages, inventory, the JN object record, block geometry and the enemies'
    random numbers.
  - `grid.rs`, `background.rs`, `collision.rs` — the background grid, the
    background cell kinds and the collision and sliding rules on them.
  - `player.rs` — the player's states (stand, jump, climb, die) and moves.
  - `enemies.rs`, `frog.rs`, `crab.rs`, `giant_ant.rs`, `gator.rs`,
    `snake.rs`, `ghost.rs` — the enemies; `bullet.rs` the thrown knife.
  - `hazards.rs`, `flame_spark.rs`, `decor.rs`, `pickups.rs`, `items.rs`,
    `mechanisms.rs`, `checkpoint.rs` — the other objects.
  - `objects.rs`, `factory.rs` — the object type table and the factory that
    builds an entity from a record.
  - `input.rs` — key bindings and held keys.
  - `saves.rs`, `session.rs`, `transitions.rs` — runtime directory paths,
    save slots and halves, restore and restart state, screen transitions.
  - `laws.rs` — properties that span several calls.
- `tests/` — tests run against the compiled library.
- Left out: asset loading, the screens (menus, level and map screens,
  status bar), the window, renderer and sound, and the config file with its
  high-score table and slot names; they rest on data-format, rendering and
  windowing crates that are not part of this project's sources.
- `app/` — the file-system side of the runtime directory and the
  floating-point aim of the eyes decoration.

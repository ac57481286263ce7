# pumpkin

Game rules of a Minecraft server — blocks, mobs and their goals, items, and a
few commands and packets — written as a Verus library whose behaviour is
stated in `requires` / `ensures` contracts and proved.

- `src/` is the verified library.  The world is modelled by `world::BlockWorld`
  (blocks set at positions, air elsewhere); each block, mob or goal keeps the
  integer state its rules read and write, and each rule is a function from
  that state and what the mob senses to the next state and the action taken.
  Properties that span several functions (save and load round trips, the
  piston push limit, bed halves pointing at each other, and others) are public
  `law_*` proof functions.
- `src/rng.rs` holds the only trusted items: thin wrappers around the `rand`
  crate and one around `str::to_lowercase` in `src/commands.rs`, each stating
  only what the crate documents.
- `app/` is ordinary Rust around the library: floating-point motion, network
  packets and logging, handing the library plain values.
- `tests/` runs the library on concrete cases.

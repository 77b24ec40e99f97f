# climber

The decision logic of a small first-person climbing game, verified with Verus.

- `src/climbing.rs`: which hand hold a climbing move goes to (the best-scoring
  reachable hold, the first one among equals).
- `src/scan.rs`: the scan of a grid of ray origins for ledges, as a state
  machine that asks for one physics probe at a time.
- `src/player.rs`: the player's movement states (idle, walking, falling), the
  decision taken every frame, and the direction the movement keys ask for.
- `src/layers.rs`: the collision layers.
- `tests/`: tests of the library on concrete values.
- `app/`: the game itself on the engine and the physics engine: input,
  physics queries, floating-point geometry, rendering. It feeds the library
  plain values and applies its decisions.

# engine

The core of a tile-based overworld engine, verified with Verus.

- `src/` is the library: tile grids and the positions inside them, what a tile lets a
  character do, the rules by which characters turn and walk from tile to tile, the actions
  bound to the edges between tiles, loading progress, sprite animation frames, the
  bookkeeping of lozos (the loaded zones of the overworld) and of asset folders, and the
  sprite sheets tiles are cut from. Every function carries a contract that Verus proves;
  the laws of the library stand there as proof functions.
- `tests/` runs the library on concrete values.
- `app/` is the bevy game around the library: asset loading, entity spawning, cameras,
  input, and the floating-point world coordinates.

# client

A small top-down game client. `src/` is the verified library (Verus):

- `timestepper`: the fixed-timestep accumulator that decides when a game tick
  is due, with its laws (one step consumed per tick, capped accumulation,
  draining at one instant, conservation of elapsed time).
- `input`: arrow-key state and the integer movement direction.
- `animation`: the sprite flip-book driven by game ticks.
- `assets`: where an asset is requested from.

`app/` is the program around it: the kiss3d window and camera, rapier2d
physics and the hecs world (all floating point), file and HTTP asset loading,
and the main loop that reads the clock and drains the timestepper with it.

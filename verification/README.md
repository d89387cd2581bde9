# tengine

A small game engine built on `bevy_ecs` and `wgpu`.

- `src/` is the verified core: the slot that holds an engine-wide instance
  (`singleton`), the entity-component system around a `bevy_ecs` world (`ecs`),
  how the window surface is configured out of what the adapter offers
  (`surface`), and which draws are recorded for a model (`draw`).
- `app/` opens the window, talks to the GPU and holds the components whose data
  is floating point (camera, transform, light); it takes its decisions from the
  core.
- `tests/` runs the core on concrete values.

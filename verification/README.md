# game_engine

The logic of a small browser game engine, verified with Verus.

Games are made of elements (a state manager, scenes and objects) whose
rhai scripts run against the engine's API, and of assets (sprites, audio,
fonts). The library holds what the engine decides and computes:

- `element`: colour codes, points and colours, layers, the camera, the
  scene's layer registry and object-stack bookkeeping, objects and the
  state manager's properties.
- `asset`, `lockable_asset`: sprite, audio and font properties and the
  asset lists objects switch between.
- `engine_api`: the keyboard state table behind the `key_*` functions and
  the decisions of the element handlers, with their error messages.
- `game`: the rows of the game data and the error text that names them,
  and the scene-switch decision of the update loop.
- `renderer`: the quad index buffer, batching limits, texture-unit
  bookkeeping, animation frame stepping and sprite image loading (PNG
  decoding through the `image` crate).
- `text`: decimal formatting for messages.

Floating-point values are stored as their bit patterns.

`app/` is the browser side: the page's game data, the rhai engine and its
registrations, the WebGL renderer and the update and draw loops.
`tests/` holds the tests.

# bevy_egui

An [Egui](https://github.com/emilk/egui) integration for the [Bevy](https://github.com/bevyengine/bevy)
game engine, whose decisions are proved with Verus.

## Layout

- `src/` is the verified library. Each public function carries a contract over
  mathematical models, and the `law_*` proof functions state what holds across calls.
  - `keys.rs`: the engine's physical and logical keys as egui keys.
  - `modifiers.rs`: the held modifier keys and the egui modifiers they stand for.
  - `input.rs`: a frame's mouse, wheel, keyboard and touch events as egui events,
    routed to the windows' contexts, with touch-driven pointer emulation.
  - `contexts.rs`: finding a window's context and the primary one.
  - `textures.rs`: user texture ids, partial updates of egui's textures, pixel bytes and
    sampler options.
  - `render.rs`: packing of paint jobs into vertex and index data, buffer growth, and the
    plan of the render pass (scissors, draws, paint callbacks).
  - `output.rs`: cursor icons, clipboard, URL opening and redraw requests.
  - `web.rs`: the browser text agent's decisions and the clipboard event channels.
- `app/` is the engine side: resources, components, systems, render graph nodes and the
  browser plumbing. It performs what the library decides.
- `tests/` runs the library on concrete values.

# nightmare_engine

A small game engine, verified with Verus where its logic is integer and
decision logic.

- `src/` is the verified library:
  - `event_loop` — what the renderer's main loop does for each windowing
    event and after each frame (update, send an engine event, resize the
    surface, render, exit);
  - `events` — the engine's window events and the plugin that registers them;
  - `input` — which key drives which camera movement;
  - `editor` — the editor's keyboard, mouse and cursor handling, its light
    settings window and its widget state;
  - `window` — fullscreen requests and the choice of a monitor's video mode;
  - `shapes` — index buffers of the box, the pyramid and the UV sphere;
  - `material` — decoding an image and laying it out for a texture upload;
  - `ecs` — a minimal entity-component store;
  - `bench` — a cycle-count timer and a benchmark frame counter;
  - `engine`, `task`, `scene`, `log` — the application root and sketches.
- `app/` is the editor program around it: the winit event loop, the clock,
  logging and the floating-point camera and mesh arithmetic.
- `tests/` runs the library on concrete values.

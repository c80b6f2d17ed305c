# kiss3d core

The decision-making core of a small 3D/2D graphics engine, written in Verus
and proved against its specifications.

- `src/` is the verified library: the scene graph (`scene_graph`), the
  canvas and its event handling (`canvas`, `event`, `input`), the frame
  pipeline's scheduling (`render_plan`, `window_loop`), graphics-state caching
  (`gl_state`), the texture cache (`textures`), UI input translation (`egui_input`), recording bookkeeping
  (`recording`), mesh and pixel-buffer layout (`mesh`, `pixels`), object
  settings (`scene_object`), text support (`text`), the inspector's state and
  labels (`inspector`), browser key names (`web_keys`) and the shader feature
  masks (`masks`).
- `app/` is the host glue around it: translating `winit` and browser events,
  conversions to `egui` and `serde` types, driving a frame (surface
  acquisition, pointer input, the UI pass, text layout, the screencast),
  frame pacing, file loading and the floating-point image helpers.
- `tests/` runs the library on concrete inputs.

//! A verified core of a small 3D/2D graphics engine: the scene graph and its
//! render traversal, the window's input and canvas state, video-recording
//! bookkeeping, procedural mesh topology, frame-pipeline scheduling decisions,
//! graphics-state caching, UI input translation, scene-object settings, text
//! support and the inspector's labels and tab logic.

mod samples;
pub mod masks;
pub mod mesh;
pub mod pixels;
pub mod recording;
pub mod event;
pub mod input;
pub mod canvas;
pub mod render_plan;
pub mod gl_state;
pub mod egui_input;
pub mod inspector;
pub mod scene_object;
pub mod text;
pub mod window_loop;
pub mod scene_graph;
pub mod textures;
pub mod web_keys;

pub use samples::NumSamples;

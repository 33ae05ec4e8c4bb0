//! A small game engine: window event handling, input, camera control,
//! primitive meshes and benchmarking helpers.
pub mod bench;
pub mod ecs;
pub mod editor;
pub mod engine;
pub mod event_loop;
pub mod events;
pub mod input;
pub mod log;
pub mod material;
pub mod scene;
pub mod shapes;
pub mod task;
pub mod window;

pub use engine::{nightmare_engine, ne_render_init, ne_render_running, CONF_UI};

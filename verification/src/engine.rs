//! The engine's application root and the renderer's entry points.
use vstd::prelude::*;

verus! {

/// Whether the editor user interface is built into the renderer.
pub const CONF_UI: bool = false;

/// Starts the renderer. The renderer is started by its plugin; nothing is
/// left to do here.
pub fn ne_render_init() {
}

/// Runs one step of the renderer. The renderer runs in its plugin's event
/// loop; nothing is left to do here.
pub fn ne_render_running() {
}

/// The application root of the engine. It holds no state yet: plugins are
/// accepted and the engine is handed back.
#[allow(non_camel_case_types)]
pub struct nightmare_engine {}

impl nightmare_engine {
    /// A new engine.
    pub fn new() -> (e: nightmare_engine) {
        nightmare_engine::empty()
    }

    /// An engine without plugins.
    pub fn empty() -> (e: nightmare_engine) {
        Self {  }
    }

    /// Adds a plugin and hands the engine back.
    pub fn add_plugin(self) -> (e: nightmare_engine)
        ensures
            e == self,
    {
        self
    }
}

} // verus!

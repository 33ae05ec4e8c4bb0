//! Scenes: a loader collects what a scene holds, and the scene is built from it.
use vstd::prelude::*;

verus! {

/// Collects the model data of a scene before the scene is built.
pub struct SceneLoader {}

impl SceneLoader {
    /// An empty loader.
    pub fn new() -> (l: Self) {
        Self {  }
    }

    /// Adds model data to the scene loader (not implemented yet).
    pub fn push_model_data(&mut self) {
    }
}

impl Default for SceneLoader {
    fn default() -> (l: Self) {
        SceneLoader::new()
    }
}

/// Holds all scene components: the disc for the player.
pub struct Scene {}

impl Scene {
    /// Builds the scene from everything the loader collected.
    pub fn new(scene: SceneLoader) -> (s: Self) {
        Self {  }
    }
}

} // verus!

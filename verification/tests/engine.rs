use ::nightmare_engine::log::LogPlugin;
use ::nightmare_engine::scene::{Scene, SceneLoader};
use ::nightmare_engine::task::{
    add_task_id, add_task_package, add_task_priority, get_pool_count, init_threads, schedule,
};
use ::nightmare_engine::{ne_render_init, ne_render_running, CONF_UI};

#[test]
fn engine_accepts_plugins() {
    let e = ::nightmare_engine::nightmare_engine::new().add_plugin().add_plugin();
    let _ = ::nightmare_engine::nightmare_engine::empty();
    let _ = e;
    assert!(!CONF_UI);
}

#[test]
fn renderer_entry_points_run() {
    ne_render_init();
    ne_render_running();
}

#[test]
fn task_sketch_runs() {
    init_threads();
    get_pool_count();
    add_task_priority();
    add_task_id();
    add_task_package();
    schedule::run();
}

#[test]
fn scene_is_built_from_loader() {
    let mut loader = SceneLoader::new();
    loader.push_model_data();
    let _scene: Scene = Scene::new(loader);
    let _default: SceneLoader = SceneLoader::default();
    let _log = LogPlugin::default();
}

use nightmare_engine::ecs::{run, Health, Name, World};

fn name(s: &str) -> Option<Name> {
    Some(Name(s.to_string()))
}

#[test]
fn world_reports_entities_with_health_and_name() {
    let mut world = World::new();
    world.new_entity(Some(Health(-10)), name("Icarus"));
    world.new_entity(Some(Health(100)), name("Prometheus"));
    world.new_entity(None, name("Zeus"));
    assert_eq!(
        world.iterator(),
        vec!["Icarus has perished!".to_string(), "Prometheus is still healthy".to_string()]
    );
}

#[test]
fn zero_health_is_still_healthy() {
    let mut world = World::new();
    world.new_entity(Some(Health(0)), name("Hermes"));
    world.new_entity(Some(Health(-1)), None);
    assert_eq!(world.iterator(), vec!["Hermes is still healthy".to_string()]);
}

#[test]
fn empty_world_reports_nothing() {
    assert!(World::new().iterator().is_empty());
}

#[test]
fn new_entity_appends_its_line() {
    let mut world = World::new();
    world.new_entity(Some(Health(5)), name("Atlas"));
    let before = world.iterator();
    world.new_entity(Some(Health(i32::MIN)), name("Hades"));
    let mut expected = before.clone();
    expected.push("Hades has perished!".to_string());
    assert_eq!(world.iterator(), expected);
    world.new_entity(None, None);
    assert_eq!(world.iterator(), expected);
}

#[test]
fn run_builds_the_demo_world() {
    run();
}

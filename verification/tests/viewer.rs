//! Behavioural tests for the scene-viewer core: startup, scene source
//! resolution, the per-frame rotation controller and the editor binding
//! override, exercised on concrete worlds.

use gltf_viewer::angle::{advance_yaw, RATE_PI_6, RATE_PI_8, TURN};
use gltf_viewer::controls::{
    action_triggered, binding_activates, editor_controls, Action, Binding, BindingCondition, Key,
};
use gltf_viewer::rotation::{rotate_pbr, rotate_pbr_at_rate, tick, toggle_rotate};
use gltf_viewer::scene::{resolve_scene_source, setup_pbr};
use gltf_viewer::startup;
use gltf_viewer::world::{
    find_sole_container, setup_world, Color, Entity, EntityKind, Transform, Vec3i, World,
};

const DEFAULT_SOURCE: &str = "models/FlightHelmet/FlightHelmet.gltf#Scene0";

/// The index the scene container gets in a world built by `startup`.
const CONTAINER: usize = 3;

fn container_yaw(world: &World) -> u64 {
    world.entities[CONTAINER].transform.yaw
}

fn container_flag(world: &World) -> bool {
    match world.entities[CONTAINER].kind {
        EntityKind::SceneContainer { rotation_enabled } => rotation_enabled,
        _ => panic!("entity is not the scene container"),
    }
}

fn yaw_radians(yaw: u64) -> f64 {
    (yaw as f64) * 2.0 * std::f64::consts::PI / (TURN as f64)
}

#[test]
fn resolve_source_default() {
    let source = resolve_scene_source(None);
    assert_eq!(source, DEFAULT_SOURCE);
}

#[test]
fn resolve_source_verbatim() {
    let source = resolve_scene_source(Some(String::from("foo.gltf#Scene1")));
    assert_eq!(source, "foo.gltf#Scene1");
}

#[test]
fn angular_rates_match_their_radian_values() {
    // One second at each rate, as radians.
    let pi = std::f64::consts::PI;
    let per_second_pi_8 = yaw_radians(RATE_PI_8 * 1_000_000);
    let per_second_pi_6 = yaw_radians(RATE_PI_6 * 1_000_000);
    assert!((per_second_pi_8 - pi / 8.0).abs() < 1e-9);
    assert!((per_second_pi_6 - pi / 6.0).abs() < 1e-9);
}

#[test]
fn advance_yaw_exact() {
    assert_eq!(advance_yaw(0, RATE_PI_8, 1_000_000), 3_000_000);
    assert_eq!(advance_yaw(5, 0, 1_000_000), 5);
    assert_eq!(advance_yaw(7, 123, 0), 7);
}

#[test]
fn advance_yaw_wraps_modulo_one_turn() {
    // Sixteen seconds at pi/8 rad/s is one full revolution.
    assert_eq!(advance_yaw(0, RATE_PI_8, 16_000_000), 0);
    assert_eq!(advance_yaw(TURN - 1, 1, 1), 0);
    assert_eq!(advance_yaw(TURN - 1, 1, 2), 1);
}

#[test]
fn setup_world_creates_camera_plane_and_light() {
    let mut world = World::new();
    setup_world(&mut world);
    assert_eq!(world.entities.len(), 3);
    let camera = &world.entities[0];
    assert_eq!(camera.transform.translation, Vec3i { x: 0, y: 4, z: -8 });
    assert_eq!(camera.kind, EntityKind::Camera { target: Vec3i { x: 0, y: 0, z: 0 } });
    let plane = &world.entities[1];
    assert_eq!(
        plane.kind,
        EntityKind::GroundPlane {
            size: 8,
            color: Color { red_milli: 200, green_milli: 200, blue_milli: 200 },
            roughness_milli: 800,
        }
    );
    let light = &world.entities[2];
    assert_eq!(light.transform.translation, Vec3i { x: 50, y: 50, z: 50 });
    assert_eq!(light.kind, EntityKind::PointLight { intensity: 600000, range: 100 });
}

#[test]
fn scene_loader_creates_container_and_labeled_child() {
    let mut world = World::new();
    let source = setup_pbr(&mut world, None);
    assert_eq!(source, DEFAULT_SOURCE);
    assert_eq!(world.entities.len(), 2);
    let container = &world.entities[0];
    assert_eq!(container.kind, EntityKind::SceneContainer { rotation_enabled: true });
    assert_eq!(container.transform, Transform { translation: Vec3i { x: 0, y: 0, z: 0 }, yaw: 0 });
    let child = &world.entities[1];
    assert_eq!(child.parent, Some(container.id));
    assert_eq!(
        child.kind,
        EntityKind::SceneNode {
            source: String::from(DEFAULT_SOURCE),
            label: String::from("Gltf"),
        }
    );
}

#[test]
fn startup_builds_the_whole_scene() {
    let (world, source) = startup(None);
    assert_eq!(source, DEFAULT_SOURCE);
    assert_eq!(world.entities.len(), 5);
    assert!(matches!(world.entities[0].kind, EntityKind::Camera { .. }));
    assert!(matches!(world.entities[1].kind, EntityKind::GroundPlane { .. }));
    assert!(matches!(world.entities[2].kind, EntityKind::PointLight { .. }));
    assert!(container_flag(&world));
    assert_eq!(container_yaw(&world), 0);
    assert!(matches!(world.entities[4].kind, EntityKind::SceneNode { .. }));
}

#[test]
fn rotation_advances_by_rate_times_elapsed_time() {
    let (mut world, _) = startup(None);
    rotate_pbr(&mut world, 1_000_000);
    assert_eq!(container_yaw(&world), RATE_PI_8 * 1_000_000);
    rotate_pbr(&mut world, 500_000);
    assert_eq!(container_yaw(&world), RATE_PI_8 * 1_500_000);
}

#[test]
fn rotation_disabled_leaves_yaw_unchanged() {
    let (mut world, _) = startup(None);
    rotate_pbr(&mut world, 1_000_000);
    let yaw_before = container_yaw(&world);
    toggle_rotate(&mut world, true);
    assert!(!container_flag(&world));
    rotate_pbr(&mut world, 2_000_000);
    assert_eq!(container_yaw(&world), yaw_before);
}

#[test]
fn rotation_touches_only_the_container() {
    let (mut turned, _) = startup(None);
    let (untouched, _) = startup(None);
    tick(&mut turned, false, 1_000_000);
    assert_ne!(container_yaw(&turned), container_yaw(&untouched));
    for i in 0..5 {
        if i != CONTAINER {
            assert_eq!(turned.entities[i], untouched.entities[i]);
        }
    }
}

#[test]
fn toggle_flips_only_on_a_press_edge() {
    let (mut world, _) = startup(None);
    assert!(container_flag(&world));
    // A press edge flips the flag.
    toggle_rotate(&mut world, true);
    assert!(!container_flag(&world));
    // A held key reports no new edge: no further flips, over many ticks.
    toggle_rotate(&mut world, false);
    toggle_rotate(&mut world, false);
    assert!(!container_flag(&world));
    // The next edge flips it back.
    toggle_rotate(&mut world, true);
    assert!(container_flag(&world));
}

#[test]
fn ticks_without_container_are_silent_no_ops() {
    // The loader has not resolved yet: no scene container exists.
    let mut world = World::new();
    setup_world(&mut world);
    let ids: Vec<u64> = world.entities.iter().map(|e| e.id).collect();
    tick(&mut world, true, 1_000_000);
    tick(&mut world, false, 1_000_000);
    assert_eq!(world.entities.len(), 3);
    let ids_after: Vec<u64> = world.entities.iter().map(|e| e.id).collect();
    assert_eq!(ids, ids_after);
    for e in &world.entities {
        assert_eq!(e.transform.yaw, 0);
    }
}

#[test]
fn duplicated_containers_make_procedures_no_op() {
    let mut world = World::new();
    let origin = Transform { translation: Vec3i { x: 0, y: 0, z: 0 }, yaw: 0 };
    world.spawn(None, origin, EntityKind::SceneContainer { rotation_enabled: true });
    world.spawn(None, origin, EntityKind::SceneContainer { rotation_enabled: true });
    assert_eq!(find_sole_container(&world), None);
    tick(&mut world, true, 1_000_000);
    for e in &world.entities {
        assert_eq!(e.transform.yaw, 0);
        assert_eq!(e.kind, EntityKind::SceneContainer { rotation_enabled: true });
    }
}

#[test]
fn find_sole_container_cases() {
    let mut world = World::new();
    assert_eq!(find_sole_container(&world), None);
    setup_world(&mut world);
    assert_eq!(find_sole_container(&world), None);
    let origin = Transform { translation: Vec3i { x: 0, y: 0, z: 0 }, yaw: 0 };
    world.spawn(None, origin, EntityKind::SceneContainer { rotation_enabled: true });
    assert_eq!(find_sole_container(&world), Some(3));
}

#[test]
fn one_second_scenario_with_pauses() {
    // Start with no argument; rotation is enabled; the rate is pi/6 rad/s.
    let pi = std::f64::consts::PI;
    let (mut world, source) = startup(None);
    assert_eq!(source, DEFAULT_SOURCE);
    // Advance one simulated second: yaw is pi/6 radians (30 degrees).
    rotate_pbr_at_rate(&mut world, 1_000_000, RATE_PI_6);
    assert!((yaw_radians(container_yaw(&world)) - pi / 6.0).abs() < 1e-9);
    // Toggle off, advance one more second: yaw unchanged.
    toggle_rotate(&mut world, true);
    rotate_pbr_at_rate(&mut world, 1_000_000, RATE_PI_6);
    assert!((yaw_radians(container_yaw(&world)) - pi / 6.0).abs() < 1e-9);
    // Toggle on, advance two seconds: yaw is pi/6 + pi/3 radians.
    toggle_rotate(&mut world, true);
    rotate_pbr_at_rate(&mut world, 2_000_000, RATE_PI_6);
    assert!((yaw_radians(container_yaw(&world)) - (pi / 6.0 + pi / 3.0)).abs() < 1e-9);
}

#[test]
fn tick_applies_toggle_before_rotate() {
    let (mut world, _) = startup(None);
    // The edge of this very tick pauses rotation, so the tick's own elapsed
    // time no longer advances the yaw.
    tick(&mut world, true, 1_000_000);
    assert!(!container_flag(&world));
    assert_eq!(container_yaw(&world), 0);
    // Toggling back on within a tick rotates in the same tick.
    tick(&mut world, true, 1_000_000);
    assert!(container_flag(&world));
    assert_eq!(container_yaw(&world), RATE_PI_8 * 1_000_000);
}

#[test]
fn override_leaves_exactly_one_pause_binding() {
    let controls = editor_controls();
    let pause_bindings: Vec<&(Action, Binding)> = controls
        .bindings
        .iter()
        .filter(|p| p.0 == Action::PlayPauseEditor)
        .collect();
    assert_eq!(pause_bindings.len(), 1);
    let binding = &pause_bindings[0].1;
    assert_eq!(binding.key, Key::Escape);
    assert_eq!(binding.conditions, vec![BindingCondition::ListeningForText(false)]);
}

#[test]
fn override_keeps_other_default_bindings() {
    let controls = editor_controls();
    let focus_bindings: Vec<&(Action, Binding)> = controls
        .bindings
        .iter()
        .filter(|p| p.0 == Action::FocusSelected)
        .collect();
    assert_eq!(focus_bindings.len(), 1);
    assert_eq!(focus_bindings[0].1.key, Key::F);
    assert!(focus_bindings[0].1.conditions.is_empty());
}

#[test]
fn pause_toggle_is_gated_by_text_input() {
    let controls = editor_controls();
    // The designated key fires only while the host is not accepting text.
    assert!(action_triggered(&controls, Action::PlayPauseEditor, Key::Escape, false));
    assert!(!action_triggered(&controls, Action::PlayPauseEditor, Key::Escape, true));
    // The default pause key was unbound by the override.
    assert!(!action_triggered(&controls, Action::PlayPauseEditor, Key::E, false));
    // Other keys never fire the pause toggle.
    assert!(!action_triggered(&controls, Action::PlayPauseEditor, Key::R, false));
}

#[test]
fn binding_fires_only_when_conditions_hold() {
    let binding = Binding {
        key: Key::Escape,
        conditions: vec![BindingCondition::ListeningForText(false)],
    };
    assert!(binding_activates(&binding, Key::Escape, false));
    assert!(!binding_activates(&binding, Key::Escape, true));
    assert!(!binding_activates(&binding, Key::R, false));
    let unconditional = Binding { key: Key::F, conditions: Vec::new() };
    assert!(binding_activates(&unconditional, Key::F, false));
    assert!(binding_activates(&unconditional, Key::F, true));
}

#[test]
fn unbind_removes_every_binding_for_the_action() {
    let mut controls = gltf_viewer::controls::EditorControls::default_bindings();
    controls.insert(
        Action::PlayPauseEditor,
        Binding { key: Key::R, conditions: Vec::new() },
    );
    controls.unbind(Action::PlayPauseEditor);
    assert!(controls.bindings.iter().all(|p| p.0 != Action::PlayPauseEditor));
    // The focus binding survives.
    assert_eq!(controls.bindings.len(), 1);
    assert_eq!(controls.bindings[0].0, Action::FocusSelected);
}

#[test]
fn loaded_child_carries_the_launch_argument() {
    let mut world = World::new();
    let source = setup_pbr(&mut world, Some(String::from("foo.gltf#Scene1")));
    assert_eq!(source, "foo.gltf#Scene1");
    match &world.entities[1].kind {
        EntityKind::SceneNode { source: node_source, label } => {
            assert_eq!(node_source.as_str(), "foo.gltf#Scene1");
            assert_eq!(label.as_str(), "Gltf");
        },
        _ => panic!("child entity is not a scene node"),
    }
}

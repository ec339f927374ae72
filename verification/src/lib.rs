//! Core logic of a minimal real-time scene viewer: an entity table holding a
//! camera, a ground plane, a light and one loaded scene under a rotating
//! container; a per-frame rotation controller with a keyboard toggle; scene
//! source resolution from an optional launch argument; and an editor
//! key-binding override. The host engine (window, renderer, asset service,
//! input polling, clock) drives these procedures from its frame scheduler.

pub mod angle;
pub mod controls;
pub mod rotation;
pub mod scene;
pub mod world;

use vstd::prelude::*;

use crate::scene::{container_entity, is_scene_node_for, resolved_scene_source, setup_pbr};
use crate::world::{
    camera_entity, container_count, light_entity, plane_entity, setup_world, Entity, World,
};

verus! {

/// Startup: the one-time procedures in an explicit order, run once before
/// the first per-frame tick: World Setup, then the Scene Loader. Returns
/// the populated world and the resolved scene source for the host to hand to
/// its asset service.
pub fn startup(launch_arg: Option<String>) -> (r: (World, String))
    ensures
        r.0.wf(),
        r.1@ == resolved_scene_source(launch_arg),
        r.0.entities@.len() == 5,
        r.0.entities@[0] == camera_entity(0),
        r.0.entities@[1] == plane_entity(1),
        r.0.entities@[2] == light_entity(2),
        r.0.entities@[3] == container_entity(3),
        is_scene_node_for(r.0.entities@[4], 4, 3, resolved_scene_source(launch_arg)),
        container_count(r.0.entities@) == 1,
{
    let mut world = World::new();
    proof {
        assert(container_count(Seq::<Entity>::empty()) == 0);
    }
    setup_world(&mut world);
    let source = setup_pbr(&mut world, launch_arg);
    proof {
        assert(world.entities@.take(3)[0] == world.entities@[0]);
        assert(world.entities@.take(3)[1] == world.entities@[1]);
        assert(world.entities@.take(3)[2] == world.entities@[2]);
    }
    (world, source)
}

} // verus!

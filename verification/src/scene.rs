//! The Scene Loader: resolves the scene source identifier and creates the
//! scene container with its child node.
//!
//! The source identifier is the optional launch argument taken verbatim, or
//! a fixed default pointing at the bundled sample asset. Resolving the
//! identifier into renderable geometry is the host asset service's work: the
//! loader only records the identifier on the child node and hands it back
//! for the host to request, without blocking on the result.

use vstd::prelude::*;

use crate::world::{
    container_count, is_container, lemma_container_count_push, Entity, EntityKind, Transform,
    World,
};

verus! {

/// The bundled sample asset used when no launch argument is supplied.
pub open spec fn default_scene_source() -> Seq<char> {
    "models/FlightHelmet/FlightHelmet.gltf#Scene0"@
}

/// The source the loader resolves from an optional launch argument: the
/// argument verbatim, or the bundled default.
pub open spec fn resolved_scene_source(launch_arg: Option<String>) -> Seq<char> {
    match launch_arg {
        Some(s) => s@,
        None => default_scene_source(),
    }
}

/// Determine the scene source identifier: a supplied launch argument is used
/// verbatim; otherwise the fixed default is used.
pub fn resolve_scene_source(launch_arg: Option<String>) -> (r: String)
    ensures
        r@ == resolved_scene_source(launch_arg),
{
    match launch_arg {
        Some(s) => s,
        None => {
            let r = String::from_str("models/FlightHelmet/FlightHelmet.gltf#Scene0");
            r
        },
    }
}

/// The container entity the loader creates: at the world origin, with
/// rotation enabled.
pub open spec fn container_entity(id: u64) -> Entity {
    Entity {
        id,
        parent: None,
        transform: Transform::identity_spec(),
        kind: EntityKind::SceneContainer { rotation_enabled: true },
    }
}

/// Whether an entity is the loader's child node for a given parent and
/// source: a scene node at the origin labeled "Gltf".
pub open spec fn is_scene_node_for(e: Entity, id: u64, parent: u64, source: Seq<char>) -> bool {
    &&& e.id == id
    &&& e.parent == Some(parent)
    &&& e.transform == Transform::identity_spec()
    &&& match e.kind {
        EntityKind::SceneNode { source: s, label } => s@ == source && label@ == "Gltf"@,
        _ => false,
    }
}

/// Scene Loader: runs once at startup, before the per-frame procedures.
/// Resolves the scene source, creates the scene container at the origin with
/// rotation enabled, and attaches one child node carrying the source
/// identifier and a fixed label. Returns the resolved source for the host to
/// hand to its asset service (and name in its startup log line).
pub fn setup_pbr(world: &mut World, launch_arg: Option<String>) -> (source: String)
    requires
        old(world).wf(),
        container_count(old(world).entities@) == 0,
        old(world).next_id <= u64::MAX - 2,
    ensures
        final(world).wf(),
        source@ == resolved_scene_source(launch_arg),
        final(world).next_id == old(world).next_id + 2,
        final(world).entities@.len() == old(world).entities@.len() + 2,
        final(world).entities@.take(old(world).entities@.len() as int) =~= old(world).entities@,
        final(world).entities@[old(world).entities@.len() as int] == container_entity(
            old(world).next_id,
        ),
        is_scene_node_for(
            final(world).entities@.last(),
            (old(world).next_id + 1) as u64,
            old(world).next_id,
            resolved_scene_source(launch_arg),
        ),
        container_count(final(world).entities@) == 1,
{
    let source = resolve_scene_source(launch_arg);
    let container_id = world.spawn(
        None,
        Transform::identity(),
        EntityKind::SceneContainer { rotation_enabled: true },
    );
    let node_source = source.clone();
    let label = String::from_str("Gltf");
    world.spawn(
        Some(container_id),
        Transform::identity(),
        EntityKind::SceneNode { source: node_source, label },
    );
    proof {
        let s0 = old(world).entities@;
        lemma_container_count_push(s0, container_entity(old(world).next_id));
        lemma_container_count_push(
            s0.push(container_entity(old(world).next_id)),
            world.entities@.last(),
        );
        assert(s0.push(container_entity(old(world).next_id)).push(world.entities@.last())
            =~= world.entities@);
    }
    source
}

} // verus!

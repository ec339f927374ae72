//! The Rotation Controller: two per-frame procedures over the entity table.
//!
//! The toggle procedure flips the scene container's `rotation_enabled` flag
//! on a key-press edge; the rotate procedure advances the container's yaw by
//! the angular rate times the elapsed time while the flag is set. Both act
//! only when the table holds exactly one scene container: a missing container
//! (the loader's asset still resolving) or a duplicated one is a silent
//! no-op, never an error.

use vstd::prelude::*;

use crate::angle::{advance_yaw, advanced_yaw, RATE_PI_8, TURN};
use crate::world::{
    container_count, container_rotation_enabled, find_sole_container, is_container, Entity,
    EntityKind, Transform, World,
};

verus! {

/// An entity after the rotate procedure touches it: an enabled scene
/// container has its yaw advanced; every other entity is unchanged.
pub open spec fn rotated_entity(e: Entity, rate: int, dt_us: int) -> Entity {
    if is_container(e) && container_rotation_enabled(e) {
        Entity {
            transform: Transform {
                yaw: advanced_yaw(e.transform.yaw as int, rate, dt_us) as u64,
                ..e.transform
            },
            ..e
        }
    } else {
        e
    }
}

/// The entity table after one rotate procedure: when exactly one scene
/// container is present, it is rotated in place; otherwise the table is
/// untouched.
pub open spec fn rotated_entities(s: Seq<Entity>, rate: int, dt_us: int) -> Seq<Entity> {
    if container_count(s) == 1 {
        s.map(|j: int, e: Entity| rotated_entity(e, rate, dt_us))
    } else {
        s
    }
}

/// An entity after the toggle procedure touches it: a scene container has
/// its flag flipped; every other entity is unchanged.
pub open spec fn toggled_entity(e: Entity) -> Entity {
    match e.kind {
        EntityKind::SceneContainer { rotation_enabled } => Entity {
            kind: EntityKind::SceneContainer { rotation_enabled: !rotation_enabled },
            ..e
        },
        _ => e,
    }
}

/// The entity table after one toggle procedure: on a key-press edge with
/// exactly one scene container present, that container's flag is flipped;
/// otherwise the table is untouched.
pub open spec fn toggled_entities(s: Seq<Entity>, just_pressed: bool) -> Seq<Entity> {
    if just_pressed && container_count(s) == 1 {
        s.map(|j: int, e: Entity| toggled_entity(e))
    } else {
        s
    }
}

/// A table with no scene container has none at any index.
pub proof fn lemma_count_zero_no_container(s: Seq<Entity>)
    requires
        container_count(s) == 0,
    ensures
        forall|j: int| 0 <= j < s.len() ==> !is_container(#[trigger] s[j]),
    decreases s.len(),
{
    if s.len() > 0 {
        lemma_count_zero_no_container(s.drop_last());
        assert forall|j: int| 0 <= j < s.len() implies !is_container(#[trigger] s[j]) by {
            if j < s.len() - 1 {
                assert(!is_container(s.drop_last()[j]));
            } else {
                assert(!is_container(s.last()));
            }
        };
    }
}

/// In a table with exactly one scene container, the container's index is the
/// only one holding a container.
pub proof fn lemma_count_one_unique(s: Seq<Entity>, i: int)
    requires
        container_count(s) == 1,
        0 <= i < s.len(),
        is_container(s[i]),
    ensures
        forall|j: int| 0 <= j < s.len() && j != i ==> !is_container(#[trigger] s[j]),
    decreases s.len(),
{
    if i == s.len() - 1 {
        lemma_count_zero_no_container(s.drop_last());
        assert forall|j: int| 0 <= j < s.len() && j != i implies !is_container(
            #[trigger] s[j],
        ) by {
            assert(!is_container(s.drop_last()[j]));
        };
    } else {
        if is_container(s.last()) {
            lemma_count_zero_no_container(s.drop_last());
            assert(!is_container(s.drop_last()[i]));
            assert(false);
        } else {
            lemma_count_one_unique(s.drop_last(), i);
            assert forall|j: int| 0 <= j < s.len() && j != i implies !is_container(
                #[trigger] s[j],
            ) by {
                if j < s.len() - 1 {
                    assert(!is_container(s.drop_last()[j]));
                } else {
                    assert(!is_container(s.last()));
                }
            };
        }
    }
}

/// Two tables alike in where their containers sit hold the same number of
/// containers.
proof fn lemma_container_count_pointwise(s: Seq<Entity>, t: Seq<Entity>)
    requires
        t.len() == s.len(),
        forall|j: int| 0 <= j < s.len() ==> is_container(#[trigger] t[j]) == is_container(s[j]),
    ensures
        container_count(t) == container_count(s),
    decreases s.len(),
{
    if s.len() > 0 {
        assert(is_container(t.last()) == is_container(s.last()));
        assert forall|j: int| 0 <= j < s.len() - 1 implies is_container(
            #[trigger] t.drop_last()[j],
        ) == is_container(s.drop_last()[j]) by {
            assert(is_container(t[j]) == is_container(s[j]));
        };
        lemma_container_count_pointwise(s.drop_last(), t.drop_last());
    }
}

/// Neither per-frame procedure creates, destroys or moves a scene container:
/// each entity stays a container or a non-container, and the count is kept.
pub proof fn lemma_procedures_preserve_containers(
    s: Seq<Entity>,
    rate: int,
    dt_us: int,
    just_pressed: bool,
)
    ensures
        rotated_entities(s, rate, dt_us).len() == s.len(),
        toggled_entities(s, just_pressed).len() == s.len(),
        forall|j: int|
            0 <= j < s.len() ==> is_container(#[trigger] rotated_entities(s, rate, dt_us)[j])
                == is_container(s[j]),
        forall|j: int|
            0 <= j < s.len() ==> is_container(#[trigger] toggled_entities(s, just_pressed)[j])
                == is_container(s[j]),
        container_count(rotated_entities(s, rate, dt_us)) == container_count(s),
        container_count(toggled_entities(s, just_pressed)) == container_count(s),
{
    let r = rotated_entities(s, rate, dt_us);
    let t = toggled_entities(s, just_pressed);
    assert forall|j: int| 0 <= j < s.len() implies is_container(#[trigger] r[j]) == is_container(
        s[j],
    ) by {
        if container_count(s) == 1 {
            assert(r[j] == rotated_entity(s[j], rate, dt_us));
        }
    };
    assert forall|j: int| 0 <= j < s.len() implies is_container(#[trigger] t[j]) == is_container(
        s[j],
    ) by {
        if just_pressed && container_count(s) == 1 {
            assert(t[j] == toggled_entity(s[j]));
        }
    };
    lemma_container_count_pointwise(s, r);
    lemma_container_count_pointwise(s, t);
}

/// Rotate procedure at an explicit angular rate (angle units per
/// microsecond): when exactly one scene container exists and its rotation is
/// enabled, advance its yaw by `rate * dt_us` modulo one full turn; in every
/// other case change nothing.
pub fn rotate_pbr_at_rate(world: &mut World, dt_us: u64, rate: u64)
    requires
        old(world).wf(),
    ensures
        final(world).wf(),
        final(world).next_id == old(world).next_id,
        final(world).entities@ =~= rotated_entities(
            old(world).entities@,
            rate as int,
            dt_us as int,
        ),
{
    let ghost s = world.entities@;
    match find_sole_container(world) {
        None => {
            assert(world.entities@ =~= rotated_entities(s, rate as int, dt_us as int));
        },
        Some(i) => {
            let enabled = match &world.entities[i].kind {
                EntityKind::SceneContainer { rotation_enabled } => *rotation_enabled,
                _ => false,
            };
            if enabled {
                let old_yaw = world.entities[i].transform.yaw;
                let new_yaw = advance_yaw(old_yaw, rate, dt_us);
                world.entities[i].transform.yaw = new_yaw;
                proof {
                    let t = world.entities@;
                    let m = s.map(|j: int, e: Entity| rotated_entity(e, rate as int, dt_us as int));
                    assert forall|j: int| 0 <= j < t.len() implies t[j] == m[j] by {
                        if j != i {
                            assert(!is_container(s[j]));
                        }
                    };
                    assert(t =~= m);
                }
            } else {
                proof {
                    let m = s.map(|j: int, e: Entity| rotated_entity(e, rate as int, dt_us as int));
                    assert forall|j: int| 0 <= j < s.len() implies s[j] == m[j] by {
                        if j != i {
                            assert(!is_container(s[j]));
                        }
                    };
                    assert(s =~= m);
                }
            }
        },
    }
}

/// Rotate procedure at the fixed angular rate of pi/8 radians per second.
pub fn rotate_pbr(world: &mut World, dt_us: u64)
    requires
        old(world).wf(),
    ensures
        final(world).wf(),
        final(world).next_id == old(world).next_id,
        final(world).entities@ =~= rotated_entities(
            old(world).entities@,
            RATE_PI_8 as int,
            dt_us as int,
        ),
{
    rotate_pbr_at_rate(world, dt_us, RATE_PI_8);
}

/// Toggle procedure: on a key-press edge (a discrete "just pressed" event,
/// not a held key) with exactly one scene container present, flip the
/// container's `rotation_enabled` flag; in every other case change nothing.
pub fn toggle_rotate(world: &mut World, just_pressed: bool)
    requires
        old(world).wf(),
    ensures
        final(world).wf(),
        final(world).next_id == old(world).next_id,
        final(world).entities@ =~= toggled_entities(old(world).entities@, just_pressed),
{
    if !just_pressed {
        return;
    }
    let ghost s = world.entities@;
    match find_sole_container(world) {
        None => {
            assert(world.entities@ =~= toggled_entities(s, true));
        },
        Some(i) => {
            let enabled = match &world.entities[i].kind {
                EntityKind::SceneContainer { rotation_enabled } => *rotation_enabled,
                _ => false,
            };
            world.entities[i].kind = EntityKind::SceneContainer { rotation_enabled: !enabled };
            proof {
                let t = world.entities@;
                let m = s.map(|j: int, e: Entity| toggled_entity(e));
                assert forall|j: int| 0 <= j < t.len() implies t[j] == m[j] by {
                    if j != i {
                        assert(!is_container(s[j]));
                    }
                };
                assert(t =~= m);
            }
        },
    }
}

/// One scheduler tick at the fixed angular rate: the toggle procedure runs
/// first so an edge is visible to the rotate procedure of the same tick,
/// then the rotate procedure advances the yaw over the tick's elapsed time.
pub fn tick(world: &mut World, toggle_pressed: bool, dt_us: u64)
    requires
        old(world).wf(),
    ensures
        final(world).wf(),
        final(world).next_id == old(world).next_id,
        final(world).entities@ =~= rotated_entities(
            toggled_entities(old(world).entities@, toggle_pressed),
            RATE_PI_8 as int,
            dt_us as int,
        ),
{
    toggle_rotate(world, toggle_pressed);
    rotate_pbr(world, dt_us);
}

/// Rotation law: over one rotate procedure on a table with exactly one scene
/// container, an enabled container's yaw advances by exactly `rate * dt_us`
/// modulo one full turn, a disabled container leaves the whole table
/// unchanged, and no entity other than the container ever changes.
pub proof fn lemma_rotation_law(s: Seq<Entity>, i: int, rate: int, dt_us: int)
    requires
        container_count(s) == 1,
        0 <= i < s.len(),
        is_container(s[i]),
    ensures
        rotated_entities(s, rate, dt_us).len() == s.len(),
        container_rotation_enabled(s[i]) ==> rotated_entities(s, rate, dt_us)[i].transform.yaw
            == advanced_yaw(s[i].transform.yaw as int, rate, dt_us),
        !container_rotation_enabled(s[i]) ==> rotated_entities(s, rate, dt_us) =~= s,
        forall|j: int|
            0 <= j < s.len() && j != i ==> rotated_entities(s, rate, dt_us)[j] == s[j],
{
    lemma_count_one_unique(s, i);
    if !container_rotation_enabled(s[i]) {
        let m = s.map(|j: int, e: Entity| rotated_entity(e, rate, dt_us));
        assert forall|j: int| 0 <= j < s.len() implies m[j] == s[j] by {
            if j != i {
                assert(!is_container(s[j]));
            }
        };
        assert(m =~= s);
    }
}

/// Toggle law: a press edge flips the sole container's flag and touches no
/// other entity; a tick whose key is merely held, producing no new edge,
/// leaves the table exactly as the edge left it, so no further flips occur.
pub proof fn lemma_toggle_law(s: Seq<Entity>, i: int)
    requires
        container_count(s) == 1,
        0 <= i < s.len(),
        is_container(s[i]),
    ensures
        toggled_entities(s, true).len() == s.len(),
        container_rotation_enabled(toggled_entities(s, true)[i]) == !container_rotation_enabled(
            s[i],
        ),
        forall|j: int| 0 <= j < s.len() && j != i ==> toggled_entities(s, true)[j] == s[j],
        toggled_entities(s, false) == s,
        toggled_entities(toggled_entities(s, true), false) == toggled_entities(s, true),
{
    lemma_count_one_unique(s, i);
}

} // verus!

//! The entity table: an explicit model of the host engine's scene graph.
//!
//! Entities are kept in insertion order in one table; each carries a stable
//! identifier, an optional parent, a spatial transform and one typed
//! component. Queries are explicit scans over the table; the per-frame
//! procedures act only when exactly one scene container is present.

use vstd::prelude::*;

use crate::angle::TURN;

verus! {

/// A position in whole world units.
#[derive(Clone, Copy, PartialEq, Eq, Structural, Debug)]
pub struct Vec3i {
    pub x: i64,
    pub y: i64,
    pub z: i64,
}

/// A colour with channels in thousandths (a channel of 200 is 0.2).
#[derive(Clone, Copy, PartialEq, Eq, Structural, Debug)]
pub struct Color {
    pub red_milli: u32,
    pub green_milli: u32,
    pub blue_milli: u32,
}

/// A spatial transform: a translation and a yaw about the vertical axis in
/// angle units (see `crate::angle::TURN`). Scale is left at identity.
#[derive(Clone, Copy, PartialEq, Eq, Structural, Debug)]
pub struct Transform {
    pub translation: Vec3i,
    pub yaw: u64,
}

impl Transform {
    /// The identity transform: at the origin, unrotated.
    pub fn identity() -> (t: Transform)
        ensures
            t == Transform::identity_spec(),
    {
        Transform { translation: Vec3i { x: 0, y: 0, z: 0 }, yaw: 0 }
    }

    /// The identity transform, for contracts.
    pub open spec fn identity_spec() -> Transform {
        Transform { translation: Vec3i { x: 0, y: 0, z: 0 }, yaw: 0 }
    }

    /// A transform translated to the given coordinates, unrotated.
    pub fn from_xyz(x: i64, y: i64, z: i64) -> (t: Transform)
        ensures
            t == Transform::from_xyz_spec(x, y, z),
    {
        Transform { translation: Vec3i { x, y, z }, yaw: 0 }
    }

    /// The transform `from_xyz` builds, for contracts.
    pub open spec fn from_xyz_spec(x: i64, y: i64, z: i64) -> Transform {
        Transform { translation: Vec3i { x, y, z }, yaw: 0 }
    }
}

/// The typed component an entity carries.
#[derive(PartialEq, Eq, Debug)]
pub enum EntityKind {
    /// A fixed viewpoint aimed at `target`.
    Camera { target: Vec3i },
    /// A flat ground mesh with a matte material.
    GroundPlane { size: u64, color: Color, roughness_milli: u32 },
    /// A point light source.
    PointLight { intensity: u64, range: u64 },
    /// The attachment point of the loaded scene; `rotation_enabled` is the
    /// rotation controller's flag.
    SceneContainer { rotation_enabled: bool },
    /// The loaded scene asset: the source identifier handed to the host's
    /// asset service, and a human-readable label.
    SceneNode { source: String, label: String },
}

/// One entry of the entity table.
#[derive(PartialEq, Eq, Debug)]
pub struct Entity {
    pub id: u64,
    pub parent: Option<u64>,
    pub transform: Transform,
    pub kind: EntityKind,
}

/// Whether an entity is the scene container.
pub open spec fn is_container(e: Entity) -> bool {
    match e.kind {
        EntityKind::SceneContainer { .. } => true,
        _ => false,
    }
}

/// The rotation flag of a scene container (false on any other entity).
pub open spec fn container_rotation_enabled(e: Entity) -> bool {
    match e.kind {
        EntityKind::SceneContainer { rotation_enabled } => rotation_enabled,
        _ => false,
    }
}

/// How many scene containers a table holds.
pub open spec fn container_count(s: Seq<Entity>) -> nat
    decreases s.len(),
{
    if s.len() == 0 {
        0
    } else {
        container_count(s.drop_last()) + (if is_container(s.last()) {
            1nat
        } else {
            0nat
        })
    }
}

/// Counting one more entry extends the count by that entry's contribution.
pub proof fn lemma_container_count_take_step(s: Seq<Entity>, i: int)
    requires
        0 <= i < s.len(),
    ensures
        container_count(s.take(i + 1)) == container_count(s.take(i)) + (if is_container(s[i]) {
            1nat
        } else {
            0nat
        }),
{
    assert(s.take(i + 1).drop_last() =~= s.take(i));
    assert(s.take(i + 1).last() == s[i]);
}

/// Appending an entry extends the count by that entry's contribution.
pub proof fn lemma_container_count_push(s: Seq<Entity>, e: Entity)
    ensures
        container_count(s.push(e)) == container_count(s) + (if is_container(e) {
            1nat
        } else {
            0nat
        }),
{
    assert(s.push(e).drop_last() =~= s);
    assert(s.push(e).last() == e);
}

/// The world: the entity table and the next fresh identifier.
pub struct World {
    pub next_id: u64,
    pub entities: Vec<Entity>,
}

impl World {
    /// Well-formedness: every yaw lies below one full turn, and identifiers
    /// are unique and below the next fresh one.
    pub open spec fn wf(self) -> bool {
        &&& forall|i: int|
            0 <= i < self.entities@.len() ==> (#[trigger] self.entities@[i]).transform.yaw < TURN
        &&& forall|i: int|
            0 <= i < self.entities@.len() ==> (#[trigger] self.entities@[i]).id < self.next_id
        &&& forall|i: int, j: int|
            0 <= i < j < self.entities@.len() ==> (#[trigger] self.entities@[i]).id != (
            #[trigger] self.entities@[j]).id
    }

    /// An empty world.
    pub fn new() -> (w: World)
        ensures
            w.wf(),
            w.entities@ =~= Seq::<Entity>::empty(),
            w.next_id == 0,
    {
        World { next_id: 0, entities: Vec::new() }
    }

    /// Add one entity to the table and hand back its fresh identifier.
    pub fn spawn(&mut self, parent: Option<u64>, transform: Transform, kind: EntityKind) -> (id:
        u64)
        requires
            old(self).wf(),
            old(self).next_id < u64::MAX,
            transform.yaw < TURN,
        ensures
            final(self).wf(),
            id == old(self).next_id,
            final(self).next_id == old(self).next_id + 1,
            final(self).entities@ =~= old(self).entities@.push(
                (Entity { id: old(self).next_id, parent, transform, kind }),
            ),
    {
        let id = self.next_id;
        self.next_id = self.next_id + 1;
        self.entities.push(Entity { id, parent, transform, kind });
        id
    }
}

/// The camera entity World Setup creates under a given identifier.
pub open spec fn camera_entity(id: u64) -> Entity {
    Entity {
        id,
        parent: None,
        transform: Transform::from_xyz_spec(0, 4, -8i64),
        kind: EntityKind::Camera { target: Vec3i { x: 0, y: 0, z: 0 } },
    }
}

/// The ground-plane entity World Setup creates under a given identifier.
pub open spec fn plane_entity(id: u64) -> Entity {
    Entity {
        id,
        parent: None,
        transform: Transform::identity_spec(),
        kind: EntityKind::GroundPlane {
            size: 8,
            color: Color { red_milli: 200, green_milli: 200, blue_milli: 200 },
            roughness_milli: 800,
        },
    }
}

/// The point-light entity World Setup creates under a given identifier.
pub open spec fn light_entity(id: u64) -> Entity {
    Entity {
        id,
        parent: None,
        transform: Transform::from_xyz_spec(50, 50, 50),
        kind: EntityKind::PointLight { intensity: 600000, range: 100 },
    }
}

/// World Setup: create the static environment, in order a camera at a fixed
/// eye position aimed at the origin, a ground plane with a fixed matte
/// material, and a point light with fixed intensity and range. Runs once at
/// startup; purely additive to the world.
pub fn setup_world(world: &mut World)
    requires
        old(world).wf(),
        old(world).next_id <= u64::MAX - 3,
    ensures
        final(world).wf(),
        final(world).next_id == old(world).next_id + 3,
        final(world).entities@ =~= old(world).entities@.push(camera_entity(old(world).next_id)).push(
            plane_entity((old(world).next_id + 1) as u64),
        ).push(light_entity((old(world).next_id + 2) as u64)),
        container_count(final(world).entities@) == container_count(old(world).entities@),
{
    let cam_transform = Transform::from_xyz(0, 4, -8);
    world.spawn(
        None,
        cam_transform,
        EntityKind::Camera { target: Vec3i { x: 0, y: 0, z: 0 } },
    );
    world.spawn(
        None,
        Transform::identity(),
        EntityKind::GroundPlane {
            size: 8,
            color: Color { red_milli: 200, green_milli: 200, blue_milli: 200 },
            roughness_milli: 800,
        },
    );
    world.spawn(
        None,
        Transform::from_xyz(50, 50, 50),
        EntityKind::PointLight { intensity: 600000, range: 100 },
    );
    proof {
        let s0 = old(world).entities@;
        lemma_container_count_push(s0, camera_entity(old(world).next_id));
        lemma_container_count_push(
            s0.push(camera_entity(old(world).next_id)),
            plane_entity((old(world).next_id + 1) as u64),
        );
        lemma_container_count_push(
            s0.push(camera_entity(old(world).next_id)).push(
                plane_entity((old(world).next_id + 1) as u64),
            ),
            light_entity((old(world).next_id + 2) as u64),
        );
    }
}

/// Find the index of the scene container, provided the table holds exactly
/// one; any other count reports `None` (the per-frame procedures then no-op).
pub fn find_sole_container(world: &World) -> (r: Option<usize>)
    ensures
        match r {
            Some(i) => {
                &&& container_count(world.entities@) == 1
                &&& i < world.entities@.len()
                &&& is_container(world.entities@[i as int])
                &&& forall|j: int|
                    0 <= j < world.entities@.len() && j != i ==> !is_container(
                        #[trigger] world.entities@[j],
                    )
            },
            None => container_count(world.entities@) != 1,
        },
{
    let n = world.entities.len();
    let mut cnt: usize = 0;
    let mut found: Option<usize> = None;
    let mut i: usize = 0;
    while i < n
        invariant
            n == world.entities@.len(),
            0 <= i <= n,
            cnt == container_count(world.entities@.take(i as int)),
            cnt <= i,
            cnt == 0 <==> found is None,
            match found {
                Some(k) => {
                    &&& k < i
                    &&& is_container(world.entities@[k as int])
                    &&& cnt == 1 ==> forall|j: int|
                        0 <= j < i && j != k ==> !is_container(#[trigger] world.entities@[j])
                },
                None => forall|j: int| 0 <= j < i ==> !is_container(#[trigger] world.entities@[j]),
            },
        decreases n - i,
    {
        proof {
            lemma_container_count_take_step(world.entities@, i as int);
        }
        let e = &world.entities[i];
        let this_is_container = match e.kind {
            EntityKind::SceneContainer { .. } => true,
            _ => false,
        };
        if this_is_container {
            cnt = cnt + 1;
            if found.is_none() {
                found = Some(i);
            }
        }
        i = i + 1;
    }
    proof {
        assert(world.entities@.take(n as int) =~= world.entities@);
    }
    if cnt == 1 {
        found
    } else {
        None
    }
}

} // verus!

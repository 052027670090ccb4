//! The systems of the bridge: the two materialization passes, the stepper and
//! the pass that carries the engine's poses back.

use vstd::prelude::*;
use crate::scalar::Real32;
use crate::desc::BodyHandle;
use crate::desc::Components;
use crate::desc::MaterialHandle;
use crate::desc::PhysXController;
use crate::desc::PhysXDynamicRigidBodyHandle;
use crate::desc::PhysXRigidBodyDesc;
use crate::desc::PhysXStaticRigidBodyHandle;
use crate::desc::Pose;
use crate::desc::Transform;
use crate::desc::Vec3;
use crate::world::CreationError;
use crate::world::PhysX;
use crate::world::PhysXView;
use crate::world::StepError;

verus! {

/// The entities that the actor pass works on: those that carry a material,
/// a collider and a rigid-body descriptor together with a transform.
pub open spec fn actor_matches(c: Components) -> bool {
    c.material is Some && c.collider is Some && c.rigid_body is Some && c.transform is Some
}

/// The entities that the controller pass works on: those that carry a capsule
/// and a material descriptor together with a transform.
pub open spec fn controller_matches(c: Components) -> bool {
    c.capsule is Some && c.material is Some && c.transform is Some
}

/// The entities that the pose pass works on: those that carry the handle of a
/// dynamic body together with a transform.
pub open spec fn sync_matches(c: Components) -> bool {
    c.dynamic_body is Some && c.transform is Some
}

/// What `create_body_collider` refuses: an entity without collider, body
/// descriptor or transform, then what the world refuses.
pub open spec fn body_refusal(c: Components, material: MaterialHandle, p: PhysXView) -> Option<
    CreationError,
> {
    if c.collider is None || c.rigid_body is None || c.transform is None {
        Some(CreationError::IncompleteDescriptors)
    } else {
        PhysX::actor_refusal(p, material)
    }
}

/// The entity and the world after the entity's body was created.
///
/// A static body is created at the origin, unrotated and unscaled, whatever
/// the entity's transform says. A dynamic body is created at the entity's
/// rotation and translation, its shape scaled by the entity's scale; its
/// angular damping is set before it joins the scene.
pub open spec fn body_created(c: Components, material: MaterialHandle, p: PhysXView) -> (
    Components,
    PhysXView,
) {
    let geometry = c.collider->0;
    let transform = c.transform->0;
    let body = p.next_body();
    match c.rigid_body->0 {
        PhysXRigidBodyDesc::Static => (
            Components { static_body: Some(PhysXStaticRigidBodyHandle(body)), ..c },
            p.static_created(
                Pose::origin(),
                geometry,
                material,
                Vec3::splat(Real32::one()),
            ).actor_added(body),
        ),
        PhysXRigidBodyDesc::Dynamic { density, angular_damping } => (
            Components { dynamic_body: Some(PhysXDynamicRigidBodyHandle(body)), ..c },
            p.dynamic_created(
                Pose::of(transform),
                geometry,
                material,
                density,
                transform.scale,
            ).damping_set(body, angular_damping).actor_added(body),
        ),
    }
}

/// Creates the body of one entity from its collider and body descriptors,
/// made of a material that was created before, and attaches the body's handle.
/// The descriptors stay; the pass that calls this removes them.
pub fn create_body_collider(c: &Components, material: MaterialHandle, physx: &mut PhysX) -> (r:
    Result<Components, CreationError>)
    ensures
        match body_refusal(*c, material, old(physx)@) {
            Some(e) => r == Err::<Components, CreationError>(e) && final(physx)@ == old(physx)@,
            None => r == Ok::<Components, CreationError>(body_created(*c, material, old(physx)@).0)
                && final(physx)@ == body_created(*c, material, old(physx)@).1,
        },
{
    proof {
        physx.lemma_fits();
    }
    let (geometry, body_desc, transform) = match (c.collider, c.rigid_body, c.transform) {
        (Some(g), Some(b), Some(t)) => (g, b, t),
        _ => {
            return Err(CreationError::IncompleteDescriptors);
        },
    };
    match body_desc {
        PhysXRigidBodyDesc::Static => {
            let body = match physx.create_static_actor(
                Pose::identity(),
                geometry,
                material,
                Vec3::ones(),
            ) {
                Ok(body) => body,
                Err(e) => {
                    return Err(e);
                },
            };
            match physx.add_actor(body) {
                Ok(()) => {},
                Err(e) => {
                    return Err(e);
                },
            }
            Ok(Components { static_body: Some(PhysXStaticRigidBodyHandle(body)), ..*c })
        },
        PhysXRigidBodyDesc::Dynamic { density, angular_damping } => {
            let body = match physx.create_dynamic_actor(
                Pose::from_transform(&transform),
                geometry,
                material,
                density,
                transform.scale,
            ) {
                Ok(body) => body,
                Err(e) => {
                    return Err(e);
                },
            };
            match physx.set_angular_damping(body, angular_damping) {
                Ok(()) => {},
                Err(e) => {
                    return Err(e);
                },
            }
            match physx.add_actor(body) {
                Ok(()) => {},
                Err(e) => {
                    return Err(e);
                },
            }
            Ok(Components { dynamic_body: Some(PhysXDynamicRigidBodyHandle(body)), ..*c })
        },
    }
}

/// One matching entity and the world after the actor pass has dealt with the
/// entity: a material of its own, then its body, and the three descriptors
/// gone.
pub open spec fn actor_materialized(c: Components, p: PhysXView) -> (Components, PhysXView) {
    let made = body_created(c, p.next_material(), p.material_created(c.material->0));
    (Components { material: None, collider: None, rigid_body: None, ..made.0 }, made.1)
}

/// The scene and the world after the actor pass has dealt with the first `n`
/// entities.
pub open spec fn actor_pass_prefix(world: Seq<Components>, p: PhysXView, n: nat) -> (
    Seq<Components>,
    PhysXView,
)
    decreases n,
{
    if n == 0 {
        (world, p)
    } else {
        let before = actor_pass_prefix(world, p, (n - 1) as nat);
        if actor_matches(world[n - 1]) {
            let made = actor_materialized(world[n - 1], before.1);
            (before.0.update(n - 1, made.0), made.1)
        } else {
            before
        }
    }
}

/// The scene and the world after the actor pass. A world that is down
/// materializes nothing.
pub open spec fn actor_pass(world: Seq<Components>, p: PhysXView) -> (Seq<Components>, PhysXView) {
    if p.live {
        actor_pass_prefix(world, p, world.len())
    } else {
        (world, p)
    }
}

/// The actor pass: gives every matching entity a material and a body, in the
/// order of the scene, and replaces its descriptors by the body's handle.
/// On a world that is down it changes nothing and says so.
pub fn physx_create_body_material_collider(world: &mut Vec<Components>, physx: &mut PhysX) -> (r:
    Result<(), CreationError>)
    ensures
        r is Ok <==> old(physx)@.live,
        r is Err ==> r == Err::<(), CreationError>(CreationError::WorldReleased),
        (final(world)@, final(physx)@) == actor_pass(old(world)@, old(physx)@),
{
    if !physx.is_live() {
        return Err(CreationError::WorldReleased);
    }
    let ghost world0 = world@;
    let ghost physx0 = physx@;
    let n: usize = world.len();
    let mut i: usize = 0;
    while i < n
        invariant
            i <= n,
            n == world0.len(),
            world@.len() == n,
            physx@.live,
            forall|j: int| i <= j < n ==> world@[j] == world0[j],
            (world@, physx@) == actor_pass_prefix(world0, physx0, i as nat),
        decreases n - i,
    {
        proof {
            physx.lemma_fits();
        }
        let c: Components = world[i];
        match c.material {
            Some(material_desc) => {
                if c.collider.is_some() && c.rigid_body.is_some() && c.transform.is_some() {
                    let material = match physx.create_material(material_desc) {
                        Ok(material) => material,
                        Err(e) => {
                            return Err(e);
                        },
                    };
                    let made = match create_body_collider(&c, material, physx) {
                        Ok(made) => made,
                        Err(e) => {
                            return Err(e);
                        },
                    };
                    world.set(
                        i,
                        Components { material: None, collider: None, rigid_body: None, ..made },
                    );
                }
            },
            None => {},
        }
        i += 1;
    }
    Ok(())
}

/// One matching entity and the world after the controller pass has dealt with
/// the entity: a material of its own, a capsule controller made of it and put
/// at the entity's translation, and the two descriptors gone.
pub open spec fn controller_materialized(c: Components, p: PhysXView) -> (Components, PhysXView) {
    let with_material = p.material_created(c.material->0);
    let controller = with_material.next_controller();
    (
        Components { capsule: None, material: None, controller: Some(PhysXController(controller)), ..c },
        with_material.controller_added(c.capsule->0, p.next_material()).controller_moved(
            controller,
            (c.transform->0).translation,
        ),
    )
}

/// The scene and the world after the controller pass has dealt with the first
/// `n` entities.
pub open spec fn controller_pass_prefix(world: Seq<Components>, p: PhysXView, n: nat) -> (
    Seq<Components>,
    PhysXView,
)
    decreases n,
{
    if n == 0 {
        (world, p)
    } else {
        let before = controller_pass_prefix(world, p, (n - 1) as nat);
        if controller_matches(world[n - 1]) {
            let made = controller_materialized(world[n - 1], before.1);
            (before.0.update(n - 1, made.0), made.1)
        } else {
            before
        }
    }
}

/// The scene and the world after the controller pass. A world that is down
/// materializes nothing.
pub open spec fn controller_pass(world: Seq<Components>, p: PhysXView) -> (
    Seq<Components>,
    PhysXView,
) {
    if p.live {
        controller_pass_prefix(world, p, world.len())
    } else {
        (world, p)
    }
}

/// The controller pass: gives every matching entity a material and a capsule
/// controller at the entity's translation, in the order of the scene, and
/// replaces its capsule and material descriptors by the controller's handle.
/// On a world that is down it changes nothing and says so.
pub fn physx_create_character_controller(world: &mut Vec<Components>, physx: &mut PhysX) -> (r:
    Result<(), CreationError>)
    ensures
        r is Ok <==> old(physx)@.live,
        r is Err ==> r == Err::<(), CreationError>(CreationError::WorldReleased),
        (final(world)@, final(physx)@) == controller_pass(old(world)@, old(physx)@),
{
    if !physx.is_live() {
        return Err(CreationError::WorldReleased);
    }
    let ghost world0 = world@;
    let ghost physx0 = physx@;
    let n: usize = world.len();
    let mut i: usize = 0;
    while i < n
        invariant
            i <= n,
            n == world0.len(),
            world@.len() == n,
            physx@.live,
            forall|j: int| i <= j < n ==> world@[j] == world0[j],
            (world@, physx@) == controller_pass_prefix(world0, physx0, i as nat),
        decreases n - i,
    {
        proof {
            physx.lemma_fits();
        }
        let c: Components = world[i];
        match (c.capsule, c.material, c.transform) {
            (Some(capsule), Some(material_desc), Some(transform)) => {
                let material = match physx.create_material(material_desc) {
                    Ok(material) => material,
                    Err(e) => {
                        return Err(e);
                    },
                };
                let controller = match physx.add_capsule_controller(capsule, material) {
                    Ok(controller) => controller,
                    Err(e) => {
                        return Err(e);
                    },
                };
                match physx.set_controller_position(controller, transform.translation) {
                    Ok(()) => {},
                    Err(e) => {
                        return Err(e);
                    },
                }
                world.set(
                    i,
                    Components {
                        capsule: None,
                        material: None,
                        controller: Some(PhysXController(controller)),
                        ..c
                    },
                );
            },
            _ => {},
        }
        i += 1;
    }
    Ok(())
}

/// The world after the stepper ran with the elapsed time `dt`: stepped if
/// the time is greater than zero and the world is live, untouched if not.
pub open spec fn after_step(dt: Real32, p: PhysXView) -> PhysXView {
    if dt.positive() && p.live {
        p.stepped(dt)
    } else {
        p
    }
}

/// What the stepper answers: `Ok(true)` if it stepped, `Ok(false)` if no time
/// has elapsed, an error if time has elapsed and the world is down.
pub open spec fn step_answer(dt: Real32, p: PhysXView) -> Result<bool, StepError> {
    if !dt.positive() {
        Ok(false)
    } else if p.live {
        Ok(true)
    } else {
        Err(StepError::WorldReleased)
    }
}

/// The stepper: advances the scene by the elapsed time if that is greater
/// than zero, and waits for the results. Without elapsed time it does
/// nothing, whatever the state of the world.
pub fn physx_step_simulation(dt: Real32, physx: &mut PhysX) -> (r: Result<bool, StepError>)
    ensures
        r == step_answer(dt, old(physx)@),
        final(physx)@ == after_step(dt, old(physx)@),
{
    if !dt.is_positive() {
        return Ok(false);
    }
    match physx.step(dt) {
        Ok(()) => Ok(true),
        Err(e) => Err(e),
    }
}

/// The body whose pose the pose pass asks the engine for on behalf of an
/// entity: the entity's dynamic body, if the entity matches and a live world
/// knows the body as dynamic.
pub open spec fn sync_query(c: Components, p: PhysXView) -> Option<BodyHandle> {
    if sync_matches(c) && p.live && p.has_dynamic_body((c.dynamic_body->0).0) {
        Some((c.dynamic_body->0).0)
    } else {
        None
    }
}

/// The first half of the pose pass: for each entity, in the order of the
/// scene, the body whose pose is to be fetched, or `None`.
pub fn physx_sync_queries(world: &Vec<Components>, physx: &PhysX) -> (queries: Vec<
    Option<BodyHandle>,
>)
    ensures
        queries@.len() == world@.len(),
        forall|i: int| 0 <= i < world@.len() ==> queries@[i] == sync_query(world@[i], physx@),
{
    let mut queries: Vec<Option<BodyHandle>> = Vec::new();
    let n: usize = world.len();
    let mut i: usize = 0;
    while i < n
        invariant
            i <= n,
            n == world@.len(),
            queries@.len() == i,
            forall|j: int| 0 <= j < i ==> queries@[j] == sync_query(world@[j], physx@),
        decreases n - i,
    {
        let c: Components = world[i];
        let query = match (c.dynamic_body, c.transform) {
            (Some(handle), Some(_)) => physx.pose_query(handle.0),
            _ => None,
        };
        queries.push(query);
        i += 1;
    }
    queries
}

/// An entity after the pose pass, given the pose that the engine reported for
/// it: a matching entity's transform is replaced whole, any other entity
/// stays as it is.
pub open spec fn synced_entity(c: Components, pose: Option<Transform>) -> Components {
    if sync_matches(c) && pose is Some {
        Components { transform: pose, ..c }
    } else {
        c
    }
}

/// The pose reported for the entity at `i`, if any.
pub open spec fn pose_for(poses: Seq<Option<Transform>>, i: int) -> Option<Transform> {
    if 0 <= i < poses.len() {
        poses[i]
    } else {
        None
    }
}

/// The scene after the pose pass.
pub open spec fn synced(world: Seq<Components>, poses: Seq<Option<Transform>>) -> Seq<Components> {
    Seq::new(world.len(), |i: int| synced_entity(world[i], pose_for(poses, i)))
}

/// The second half of the pose pass: overwrites the transform of every entity
/// that carries a dynamic body with the pose that the engine reported for it.
/// `poses` answers the queries of `physx_sync_queries`, entity by entity.
pub fn physx_sync_transforms(world: &mut Vec<Components>, poses: &Vec<Option<Transform>>)
    ensures
        final(world)@ == synced(old(world)@, poses@),
{
    let ghost world0 = world@;
    let n: usize = world.len();
    let mut i: usize = 0;
    while i < n
        invariant
            i <= n,
            n == world0.len(),
            world@.len() == n,
            forall|j: int| 0 <= j < i ==> world@[j] == synced_entity(world0[j], pose_for(poses@, j)),
            forall|j: int| i <= j < n ==> world@[j] == world0[j],
        decreases n - i,
    {
        let c: Components = world[i];
        if i < poses.len() {
            match (c.dynamic_body, c.transform, poses[i]) {
                (Some(_), Some(_), Some(pose)) => {
                    world.set(i, Components { transform: Some(pose), ..c });
                },
                _ => {},
            }
        }
        i += 1;
    }
    assert(world@ =~= synced(world0, poses@));
}

} // verus!

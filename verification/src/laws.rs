//! What holds of the systems on every scene and every world.

use vstd::prelude::*;
use crate::scalar::Real32;
use crate::desc::BodyHandle;
use crate::desc::Components;
use crate::desc::PhysXRigidBodyDesc;
use crate::desc::Transform;
use crate::engine::EngineCall;
use crate::systems::actor_matches;
use crate::systems::actor_pass;
use crate::systems::actor_pass_prefix;
use crate::systems::after_step;
use crate::systems::step_answer;
use crate::systems::controller_matches;
use crate::systems::controller_pass;
use crate::systems::controller_pass_prefix;
use crate::systems::sync_matches;
use crate::systems::sync_query;
use crate::systems::synced;
use crate::world::BodyKind;
use crate::world::PhysXView;
use crate::world::StepError;

verus! {

/// An entity before and after the actor pass materialized it: the three
/// descriptors are gone, the handle of the kind that was asked for is
/// attached, and nothing else has changed.
pub open spec fn actor_settled(before: Components, after: Components) -> bool {
    &&& after.material is None
    &&& after.collider is None
    &&& after.rigid_body is None
    &&& after.capsule == before.capsule
    &&& after.transform == before.transform
    &&& after.controller == before.controller
    &&& match before.rigid_body->0 {
        PhysXRigidBodyDesc::Static => after.static_body is Some && after.dynamic_body
            == before.dynamic_body,
        PhysXRigidBodyDesc::Dynamic { .. } => after.dynamic_body is Some && after.static_body
            == before.static_body,
    }
}

/// An entity before and after the controller pass materialized it: the
/// capsule and material descriptors are gone, a controller handle is
/// attached, and nothing else has changed.
pub open spec fn controller_settled(before: Components, after: Components) -> bool {
    &&& after.capsule is None
    &&& after.material is None
    &&& after.controller is Some
    &&& after.collider == before.collider
    &&& after.rigid_body == before.rigid_body
    &&& after.transform == before.transform
    &&& after.static_body == before.static_body
    &&& after.dynamic_body == before.dynamic_body
}

/// After the actor pass has dealt with the first `n` entities of a live
/// world, each of them that matched is settled, every other entity of the
/// scene is as it was, and the world is still live.
pub proof fn lemma_actor_pass_prefix(world: Seq<Components>, p: PhysXView, n: nat)
    requires
        n <= world.len(),
        p.live,
    ensures
        actor_pass_prefix(world, p, n).0.len() == world.len(),
        actor_pass_prefix(world, p, n).1.live,
        forall|j: int|
            0 <= j < n && actor_matches(world[j]) ==> actor_settled(
                world[j],
                #[trigger] actor_pass_prefix(world, p, n).0[j],
            ),
        forall|j: int|
            0 <= j < world.len() && !(j < n && actor_matches(world[j]))
                ==> #[trigger] actor_pass_prefix(world, p, n).0[j] == world[j],
    decreases n,
{
    if n > 0 {
        lemma_actor_pass_prefix(world, p, (n - 1) as nat);
    }
}

/// After the controller pass has dealt with the first `n` entities of a live
/// world, each of them that matched is settled, every other entity of the
/// scene is as it was, and the world is still live.
pub proof fn lemma_controller_pass_prefix(world: Seq<Components>, p: PhysXView, n: nat)
    requires
        n <= world.len(),
        p.live,
    ensures
        controller_pass_prefix(world, p, n).0.len() == world.len(),
        controller_pass_prefix(world, p, n).1.live,
        forall|j: int|
            0 <= j < n && controller_matches(world[j]) ==> controller_settled(
                world[j],
                #[trigger] controller_pass_prefix(world, p, n).0[j],
            ),
        forall|j: int|
            0 <= j < world.len() && !(j < n && controller_matches(world[j]))
                ==> #[trigger] controller_pass_prefix(world, p, n).0[j] == world[j],
    decreases n,
{
    if n > 0 {
        lemma_controller_pass_prefix(world, p, (n - 1) as nat);
    }
}

/// One actor pass over a live world leaves every matching entity with the
/// handle of the body it asked for and without its descriptors, and leaves
/// every other entity as it was.
pub proof fn lemma_actor_pass_materializes(world: Seq<Components>, p: PhysXView)
    requires
        p.live,
    ensures
        actor_pass(world, p).0.len() == world.len(),
        actor_pass(world, p).1.live,
        forall|j: int|
            0 <= j < world.len() && actor_matches(world[j]) ==> actor_settled(
                world[j],
                #[trigger] actor_pass(world, p).0[j],
            ),
        forall|j: int|
            0 <= j < world.len() && !actor_matches(world[j]) ==> #[trigger] actor_pass(
                world,
                p,
            ).0[j] == world[j],
{
    lemma_actor_pass_prefix(world, p, world.len());
}

/// One controller pass over a live world leaves every matching entity with a
/// controller handle and without its capsule and material descriptors, and
/// leaves every other entity as it was.
pub proof fn lemma_controller_pass_materializes(world: Seq<Components>, p: PhysXView)
    requires
        p.live,
    ensures
        controller_pass(world, p).0.len() == world.len(),
        controller_pass(world, p).1.live,
        forall|j: int|
            0 <= j < world.len() && controller_matches(world[j]) ==> controller_settled(
                world[j],
                #[trigger] controller_pass(world, p).0[j],
            ),
        forall|j: int|
            0 <= j < world.len() && !controller_matches(world[j]) ==> #[trigger] controller_pass(
                world,
                p,
            ).0[j] == world[j],
{
    lemma_controller_pass_prefix(world, p, world.len());
}

/// An entity with a complete static descriptor set carries a static body
/// handle and none of the three descriptors after one actor pass.
pub proof fn lemma_static_entity_materialized(world: Seq<Components>, p: PhysXView, i: int)
    requires
        p.live,
        0 <= i < world.len(),
        actor_matches(world[i]),
        world[i].rigid_body == Some(PhysXRigidBodyDesc::Static),
    ensures
        actor_pass(world, p).0[i].static_body is Some,
        actor_pass(world, p).0[i].material is None,
        actor_pass(world, p).0[i].collider is None,
        actor_pass(world, p).0[i].rigid_body is None,
        actor_pass(world, p).0[i].dynamic_body == world[i].dynamic_body,
        actor_pass(world, p).0[i].transform == world[i].transform,
{
    lemma_actor_pass_materializes(world, p);
}

/// An entity with a complete dynamic descriptor set carries a dynamic body
/// handle and none of the three descriptors after one actor pass.
pub proof fn lemma_dynamic_entity_materialized(world: Seq<Components>, p: PhysXView, i: int)
    requires
        p.live,
        0 <= i < world.len(),
        actor_matches(world[i]),
        world[i].rigid_body is Some,
        world[i].rigid_body->0 is Dynamic,
    ensures
        actor_pass(world, p).0[i].dynamic_body is Some,
        actor_pass(world, p).0[i].material is None,
        actor_pass(world, p).0[i].collider is None,
        actor_pass(world, p).0[i].rigid_body is None,
        actor_pass(world, p).0[i].static_body == world[i].static_body,
        actor_pass(world, p).0[i].transform == world[i].transform,
{
    lemma_actor_pass_materializes(world, p);
}

/// No entity carries a complete descriptor set after the actor pass over a
/// live world, and none carries a capsule with a material and a transform
/// after the controller pass: nothing is left for a later pass.
pub proof fn lemma_nothing_left_to_materialize(world: Seq<Components>, p: PhysXView, i: int)
    requires
        p.live,
        0 <= i < world.len(),
    ensures
        !actor_matches(actor_pass(world, p).0[i]),
        !controller_matches(controller_pass(world, p).0[i]),
{
    lemma_actor_pass_materializes(world, p);
    lemma_controller_pass_materializes(world, p);
    if actor_matches(world[i]) {
        assert(actor_settled(world[i], actor_pass(world, p).0[i]));
    }
    if controller_matches(world[i]) {
        assert(controller_settled(world[i], controller_pass(world, p).0[i]));
    }
}

/// How many of the first `n` entities the actor pass works on.
pub open spec fn actor_count(world: Seq<Components>, n: nat) -> nat
    decreases n,
{
    if n == 0 {
        0
    } else {
        actor_count(world, (n - 1) as nat) + if actor_matches(world[n - 1]) {
            1nat
        } else {
            0nat
        }
    }
}

/// The kind of body that a descriptor asks for.
pub open spec fn kind_asked(desc: PhysXRigidBodyDesc) -> BodyKind {
    match desc {
        PhysXRigidBodyDesc::Static => BodyKind::Static,
        PhysXRigidBodyDesc::Dynamic { .. } => BodyKind::Dynamic,
    }
}

/// The body that the actor pass attached to an entity.
pub open spec fn attached_body(before: Components, after: Components) -> BodyHandle {
    match before.rigid_body->0 {
        PhysXRigidBodyDesc::Static => (after.static_body->0).0,
        PhysXRigidBodyDesc::Dynamic { .. } => (after.dynamic_body->0).0,
    }
}

/// The count of matching entities never falls as the scene is walked.
pub proof fn lemma_actor_count_grows(world: Seq<Components>, m: nat, n: nat)
    requires
        m <= n,
    ensures
        actor_count(world, m) <= actor_count(world, n),
    decreases n,
{
    if m < n {
        lemma_actor_count_grows(world, m, (n - 1) as nat);
    }
}

/// The actor pass creates one material and one body for each matching entity
/// and no controller. It keeps what was registered and what was pending, and
/// the body attached to a matching entity is the next free one at the
/// entity's turn, registered with the kind that the entity asked for.
pub proof fn lemma_actor_pass_registry(world: Seq<Components>, p: PhysXView, n: nat)
    requires
        n <= world.len(),
        p.live,
        actor_pass_prefix(world, p, n).1.fits(),
    ensures
        actor_pass_prefix(world, p, n).1.materials.len() == p.materials.len() + actor_count(
            world,
            n,
        ),
        actor_pass_prefix(world, p, n).1.bodies.len() == p.bodies.len() + actor_count(world, n),
        actor_pass_prefix(world, p, n).1.controllers == p.controllers,
        p.materials.is_prefix_of(actor_pass_prefix(world, p, n).1.materials),
        p.bodies.is_prefix_of(actor_pass_prefix(world, p, n).1.bodies),
        p.calls.is_prefix_of(actor_pass_prefix(world, p, n).1.calls),
        forall|j: int|
            0 <= j < n && actor_matches(world[j]) ==> {
                let body = attached_body(
                    world[j],
                    #[trigger] actor_pass_prefix(world, p, n).0[j],
                );
                &&& body.index == p.bodies.len() + actor_count(world, j as nat)
                &&& body.index < actor_pass_prefix(world, p, n).1.bodies.len()
                &&& actor_pass_prefix(world, p, n).1.bodies[body.index as int] == kind_asked(
                    world[j].rigid_body->0,
                )
            },
    decreases n,
{
    if n > 0 {
        let before = actor_pass_prefix(world, p, (n - 1) as nat);
        let after = actor_pass_prefix(world, p, n);
        lemma_actor_pass_prefix(world, p, (n - 1) as nat);
        assert(before.1.bodies.len() <= after.1.bodies.len());
        assert(before.1.materials.len() <= after.1.materials.len());
        assert(before.1.controllers.len() == after.1.controllers.len());
        lemma_actor_pass_registry(world, p, (n - 1) as nat);
        assert(before.1.materials.is_prefix_of(after.1.materials));
        assert(before.1.bodies.is_prefix_of(after.1.bodies));
        assert(before.1.calls.is_prefix_of(after.1.calls));
        assert forall|j: int| 0 <= j < n && actor_matches(world[j]) implies {
            let body = attached_body(world[j], #[trigger] after.0[j]);
            &&& body.index == p.bodies.len() + actor_count(world, j as nat)
            &&& body.index < after.1.bodies.len()
            &&& after.1.bodies[body.index as int] == kind_asked(world[j].rigid_body->0)
        } by {
            if j < n - 1 {
                assert(after.0[j] == before.0[j]);
                let body = attached_body(world[j], before.0[j]);
                lemma_actor_count_grows(world, (j + 1) as nat, (n - 1) as nat);
                assert(body.index < before.1.bodies.len());
                assert(after.1.bodies[body.index as int] == before.1.bodies[body.index as int]);
            }
        }
    }
}

/// Two entities that the actor pass materialized never share a body: each
/// engine object belongs to one entity.
pub proof fn lemma_actor_pass_bodies_distinct(world: Seq<Components>, p: PhysXView, i: int, j: int)
    requires
        p.live,
        actor_pass(world, p).1.fits(),
        0 <= i < j < world.len(),
        actor_matches(world[i]),
        actor_matches(world[j]),
    ensures
        attached_body(world[i], actor_pass(world, p).0[i]) != attached_body(
            world[j],
            actor_pass(world, p).0[j],
        ),
{
    lemma_actor_pass_registry(world, p, world.len());
    lemma_actor_count_grows(world, (i + 1) as nat, j as nat);
    let after = actor_pass_prefix(world, p, world.len());
    assert(attached_body(world[i], after.0[i]).index == p.bodies.len() + actor_count(
        world,
        i as nat,
    ));
    assert(attached_body(world[j], after.0[j]).index == p.bodies.len() + actor_count(
        world,
        j as nat,
    ));
    assert(actor_count(world, (i + 1) as nat) == actor_count(world, i as nat) + 1);
}

/// How many of the first `n` entities the controller pass works on.
pub open spec fn controller_count(world: Seq<Components>, n: nat) -> nat
    decreases n,
{
    if n == 0 {
        0
    } else {
        controller_count(world, (n - 1) as nat) + if controller_matches(world[n - 1]) {
            1nat
        } else {
            0nat
        }
    }
}

/// The count of matching entities never falls as the scene is walked.
pub proof fn lemma_controller_count_grows(world: Seq<Components>, m: nat, n: nat)
    requires
        m <= n,
    ensures
        controller_count(world, m) <= controller_count(world, n),
    decreases n,
{
    if m < n {
        lemma_controller_count_grows(world, m, (n - 1) as nat);
    }
}

/// The controller pass creates one material and one controller for each
/// matching entity and no body. It keeps what was registered and what was
/// pending, and the controller attached to a matching entity is the next free
/// one at the entity's turn.
pub proof fn lemma_controller_pass_registry(world: Seq<Components>, p: PhysXView, n: nat)
    requires
        n <= world.len(),
        p.live,
        controller_pass_prefix(world, p, n).1.fits(),
    ensures
        controller_pass_prefix(world, p, n).1.materials.len() == p.materials.len()
            + controller_count(world, n),
        controller_pass_prefix(world, p, n).1.controllers.len() == p.controllers.len()
            + controller_count(world, n),
        controller_pass_prefix(world, p, n).1.bodies == p.bodies,
        p.materials.is_prefix_of(controller_pass_prefix(world, p, n).1.materials),
        p.controllers.is_prefix_of(controller_pass_prefix(world, p, n).1.controllers),
        p.calls.is_prefix_of(controller_pass_prefix(world, p, n).1.calls),
        forall|j: int|
            0 <= j < n && controller_matches(world[j]) ==> ((#[trigger] controller_pass_prefix(
                world,
                p,
                n,
            ).0[j]).controller->0).0.index == p.controllers.len() + controller_count(
                world,
                j as nat,
            ),
    decreases n,
{
    if n > 0 {
        let before = controller_pass_prefix(world, p, (n - 1) as nat);
        let after = controller_pass_prefix(world, p, n);
        lemma_controller_pass_prefix(world, p, (n - 1) as nat);
        assert(before.1.controllers.len() <= after.1.controllers.len());
        assert(before.1.materials.len() <= after.1.materials.len());
        assert(before.1.bodies.len() == after.1.bodies.len());
        lemma_controller_pass_registry(world, p, (n - 1) as nat);
        assert(before.1.materials.is_prefix_of(after.1.materials));
        assert(before.1.controllers.is_prefix_of(after.1.controllers));
        assert(before.1.calls.is_prefix_of(after.1.calls));
        assert forall|j: int| 0 <= j < n && controller_matches(world[j]) implies ((
            #[trigger] after.0[j]).controller->0).0.index == p.controllers.len()
            + controller_count(world, j as nat) by {
            if j < n - 1 {
                assert(after.0[j] == before.0[j]);
            }
        }
    }
}

/// Two entities that the controller pass materialized never share a
/// controller.
pub proof fn lemma_controller_pass_controllers_distinct(
    world: Seq<Components>,
    p: PhysXView,
    i: int,
    j: int,
)
    requires
        p.live,
        controller_pass(world, p).1.fits(),
        0 <= i < j < world.len(),
        controller_matches(world[i]),
        controller_matches(world[j]),
    ensures
        controller_pass(world, p).0[i].controller is Some,
        controller_pass(world, p).0[j].controller is Some,
        controller_pass(world, p).0[i].controller != controller_pass(world, p).0[j].controller,
{
    lemma_controller_pass_materializes(world, p);
    lemma_controller_pass_registry(world, p, world.len());
    lemma_controller_count_grows(world, (i + 1) as nat, j as nat);
    let after = controller_pass_prefix(world, p, world.len());
    assert(controller_settled(world[i], after.0[i]));
    assert(controller_settled(world[j], after.0[j]));
    assert((after.0[i].controller->0).0.index == p.controllers.len() + controller_count(
        world,
        i as nat,
    ));
    assert((after.0[j].controller->0).0.index == p.controllers.len() + controller_count(
        world,
        j as nat,
    ));
    assert(controller_count(world, (i + 1) as nat) == controller_count(world, i as nat) + 1);
}

/// Every handle that the entity carries names an object that the world has
/// registered, of the kind that the handle says.
pub open spec fn handles_registered(c: Components, p: PhysXView) -> bool {
    &&& c.static_body is Some ==> p.has_body((c.static_body->0).0) && !p.has_dynamic_body(
        (c.static_body->0).0,
    )
    &&& c.dynamic_body is Some ==> p.has_dynamic_body((c.dynamic_body->0).0)
    &&& c.controller is Some ==> p.has_controller((c.controller->0).0)
}

/// An entity whose handles are registered before a materialization pass has
/// them registered after it, the handle that the pass attached included.
pub proof fn lemma_passes_keep_handles_registered(world: Seq<Components>, p: PhysXView, i: int)
    requires
        p.live,
        0 <= i < world.len(),
        handles_registered(world[i], p),
    ensures
        actor_pass(world, p).1.fits() ==> handles_registered(
            actor_pass(world, p).0[i],
            actor_pass(world, p).1,
        ),
        controller_pass(world, p).1.fits() ==> handles_registered(
            controller_pass(world, p).0[i],
            controller_pass(world, p).1,
        ),
{
    if actor_pass(world, p).1.fits() {
        let after = actor_pass_prefix(world, p, world.len());
        lemma_actor_pass_materializes(world, p);
        lemma_actor_pass_registry(world, p, world.len());
        let kept = after.1.bodies.subrange(0, p.bodies.len() as int);
        assert(kept =~= p.bodies);
        assert(forall|k: int| 0 <= k < p.bodies.len() ==> p.bodies[k] == kept[k]);
        if actor_matches(world[i]) {
            assert(actor_settled(world[i], after.0[i]));
            let body = attached_body(world[i], after.0[i]);
            assert(after.1.bodies[body.index as int] == kind_asked(world[i].rigid_body->0));
        }
    }
    if controller_pass(world, p).1.fits() {
        let after = controller_pass_prefix(world, p, world.len());
        lemma_controller_pass_materializes(world, p);
        lemma_controller_pass_registry(world, p, world.len());
        if controller_matches(world[i]) {
            assert(controller_settled(world[i], after.0[i]));
            assert(((after.0[i]).controller->0).0.index == p.controllers.len()
                + controller_count(world, i as nat));
            lemma_controller_count_grows(world, (i + 1) as nat, world.len());
        }
    }
}

/// The pose pass asks the engine for the pose of every dynamic body that the
/// actor pass has just created.
pub proof fn lemma_materialized_dynamic_entity_is_synced(
    world: Seq<Components>,
    p: PhysXView,
    i: int,
)
    requires
        p.live,
        actor_pass(world, p).1.fits(),
        0 <= i < world.len(),
        actor_matches(world[i]),
        world[i].rigid_body->0 is Dynamic,
    ensures
        actor_pass(world, p).0[i].dynamic_body is Some,
        sync_query(actor_pass(world, p).0[i], actor_pass(world, p).1)
            == Some((actor_pass(world, p).0[i].dynamic_body->0).0),
{
    let after = actor_pass_prefix(world, p, world.len());
    lemma_actor_pass_materializes(world, p);
    lemma_actor_pass_registry(world, p, world.len());
    assert(actor_settled(world[i], after.0[i]));
    let body = attached_body(world[i], after.0[i]);
    assert(after.1.bodies[body.index as int] == kind_asked(world[i].rigid_body->0));
}

/// The actor pass changes nothing among the first `n` entities when none of
/// them matches.
pub proof fn lemma_actor_pass_nothing_to_do(world: Seq<Components>, p: PhysXView, n: nat)
    requires
        n <= world.len(),
        forall|j: int| 0 <= j < n ==> !actor_matches(#[trigger] world[j]),
    ensures
        actor_pass_prefix(world, p, n) == (world, p),
    decreases n,
{
    if n > 0 {
        lemma_actor_pass_nothing_to_do(world, p, (n - 1) as nat);
    }
}

/// The controller pass changes nothing among the first `n` entities when none
/// of them matches.
pub proof fn lemma_controller_pass_nothing_to_do(world: Seq<Components>, p: PhysXView, n: nat)
    requires
        n <= world.len(),
        forall|j: int| 0 <= j < n ==> !controller_matches(#[trigger] world[j]),
    ensures
        controller_pass_prefix(world, p, n) == (world, p),
    decreases n,
{
    if n > 0 {
        lemma_controller_pass_nothing_to_do(world, p, (n - 1) as nat);
    }
}

/// Running the actor pass again on what it left changes neither the scene nor
/// the world: no second handle, no second engine object, no further call.
pub proof fn lemma_actor_pass_idempotent(world: Seq<Components>, p: PhysXView)
    ensures
        actor_pass(actor_pass(world, p).0, actor_pass(world, p).1) == actor_pass(world, p),
{
    if p.live {
        lemma_actor_pass_materializes(world, p);
        let after = actor_pass(world, p);
        assert forall|j: int| 0 <= j < after.0.len() implies !actor_matches(
            #[trigger] after.0[j],
        ) by {
            if actor_matches(world[j]) {
                assert(actor_settled(world[j], after.0[j]));
            }
        }
        lemma_actor_pass_nothing_to_do(after.0, after.1, after.0.len());
    }
}

/// Running the controller pass again on what it left changes neither the
/// scene nor the world.
pub proof fn lemma_controller_pass_idempotent(world: Seq<Components>, p: PhysXView)
    ensures
        controller_pass(controller_pass(world, p).0, controller_pass(world, p).1)
            == controller_pass(world, p),
{
    if p.live {
        lemma_controller_pass_materializes(world, p);
        let after = controller_pass(world, p);
        assert forall|j: int| 0 <= j < after.0.len() implies !controller_matches(
            #[trigger] after.0[j],
        ) by {
            if controller_matches(world[j]) {
                assert(controller_settled(world[j], after.0[j]));
            }
        }
        lemma_controller_pass_nothing_to_do(after.0, after.1, after.0.len());
    }
}

/// An entity that the controller pass has materialized is not matched by the
/// actor pass that runs after it: that pass leaves the entity as the
/// controller pass left it, and gives it no body.
pub proof fn lemma_controller_entities_excluded(world: Seq<Components>, p: PhysXView, i: int)
    requires
        p.live,
        0 <= i < world.len(),
        controller_matches(world[i]),
    ensures
        !actor_matches(controller_pass(world, p).0[i]),
        actor_pass(controller_pass(world, p).0, controller_pass(world, p).1).0[i]
            == controller_pass(world, p).0[i],
        actor_pass(controller_pass(world, p).0, controller_pass(world, p).1).0[i].static_body
            == world[i].static_body,
        actor_pass(controller_pass(world, p).0, controller_pass(world, p).1).0[i].dynamic_body
            == world[i].dynamic_body,
{
    lemma_controller_pass_materializes(world, p);
    let after = controller_pass(world, p);
    assert(controller_settled(world[i], after.0[i]));
    lemma_actor_pass_materializes(after.0, after.1);
}

/// Neither materialization pass writes a transform.
pub proof fn lemma_materialization_keeps_transforms(world: Seq<Components>, p: PhysXView, i: int)
    requires
        0 <= i < world.len(),
    ensures
        actor_pass(world, p).0[i].transform == world[i].transform,
        controller_pass(world, p).0[i].transform == world[i].transform,
{
    if p.live {
        lemma_actor_pass_materializes(world, p);
        lemma_controller_pass_materializes(world, p);
        if actor_matches(world[i]) {
            assert(actor_settled(world[i], actor_pass(world, p).0[i]));
        }
        if controller_matches(world[i]) {
            assert(controller_settled(world[i], controller_pass(world, p).0[i]));
        }
    }
}

/// Without elapsed time the stepper decides on no engine call and leaves the
/// world as it is, live or not. Zero, of either sign, is no elapsed time.
pub proof fn lemma_no_time_no_step(dt: Real32, p: PhysXView)
    requires
        !dt.positive(),
    ensures
        after_step(dt, p) == p,
        step_answer(dt, p) == Ok::<bool, StepError>(false),
        !Real32::zero().positive(),
        !(Real32 { bits: 0x8000_0000 }).positive(),
{
}

/// With elapsed time the stepper asks a live world to simulate for that time
/// and then to wait for the results, after everything that was pending.
pub proof fn lemma_step_simulates_then_waits(dt: Real32, p: PhysXView)
    requires
        dt.positive(),
        p.live,
    ensures
        after_step(dt, p).calls == p.calls.push(EngineCall::Simulate { dt }).push(
            EngineCall::FetchResults { block: true },
        ),
        after_step(dt, p).bodies == p.bodies,
        after_step(dt, p).live,
{
}

/// Teardown of a live world asks for the release of the scene, then of the
/// instance, then of the foundation, after everything that was pending, and
/// a second teardown asks for nothing.
pub proof fn lemma_teardown_order(p: PhysXView)
    requires
        p.live,
    ensures
        !p.released().live,
        p.released().calls.len() == p.calls.len() + 3,
        p.released().calls.subrange(0, p.calls.len() as int) == p.calls,
        p.released().calls[p.calls.len() as int] == EngineCall::ReleaseScene,
        p.released().calls[p.calls.len() as int + 1] == EngineCall::ReleasePhysics,
        p.released().calls[p.calls.len() as int + 2] == EngineCall::ReleaseFoundation,
        p.released().released() == p.released(),
{
    assert(p.released().calls.subrange(0, p.calls.len() as int) =~= p.calls);
}

/// The pose pass never touches an entity without a dynamic body handle,
/// whatever poses are reported: a static entity keeps its transform.
pub proof fn lemma_sync_spares_other_entities(
    world: Seq<Components>,
    poses: Seq<Option<Transform>>,
    i: int,
)
    requires
        0 <= i < world.len(),
        !sync_matches(world[i]),
    ensures
        synced(world, poses)[i] == world[i],
{
}

/// A static entity that carried no dynamic body keeps the transform it was
/// materialized with through every pose pass that follows, whatever the
/// engine reports: its pose flows from the host to the engine only.
pub proof fn lemma_static_entity_keeps_transform(
    world: Seq<Components>,
    p: PhysXView,
    poses: Seq<Option<Transform>>,
    i: int,
)
    requires
        p.live,
        0 <= i < world.len(),
        actor_matches(world[i]),
        world[i].rigid_body == Some(PhysXRigidBodyDesc::Static),
        world[i].dynamic_body is None,
    ensures
        synced(actor_pass(world, p).0, poses)[i] == actor_pass(world, p).0[i],
        synced(actor_pass(world, p).0, poses)[i].transform == world[i].transform,
{
    lemma_static_entity_materialized(world, p, i);
    lemma_actor_pass_materializes(world, p);
}

/// The pose pass changes only transforms, and those only of entities that
/// carry a dynamic body handle and for which a pose was reported.
pub proof fn lemma_sync_overwrites_transform(
    world: Seq<Components>,
    poses: Seq<Option<Transform>>,
    i: int,
)
    requires
        0 <= i < world.len(),
        sync_matches(world[i]),
        i < poses.len(),
        poses[i] is Some,
    ensures
        synced(world, poses)[i] == (Components { transform: poses[i], ..world[i] }),
{
}

/// Carrying the same poses back twice is the same as carrying them back once:
/// without a step in between no transform changes.
pub proof fn lemma_sync_idempotent(world: Seq<Components>, poses: Seq<Option<Transform>>)
    ensures
        synced(synced(world, poses), poses) == synced(world, poses),
{
    assert(synced(synced(world, poses), poses) =~= synced(world, poses));
}

} // verus!

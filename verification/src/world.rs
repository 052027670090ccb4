//! The physics world: the one owner of the engine's foundation, instance and
//! scene, and the registry of what the engine was asked to create.

use vstd::prelude::*;
use crate::scalar::Real32;
use crate::desc::BodyHandle;
use crate::desc::ControllerHandle;
use crate::desc::MaterialHandle;
use crate::desc::PhysXCapsuleControllerDesc;
use crate::desc::PhysXColliderDesc;
use crate::desc::PhysXMaterialDesc;
use crate::desc::Pose;
use crate::desc::Vec3;
use crate::engine::EngineCall;
use crate::engine::PX_PHYSICS_VERSION;

verus! {

/// Whether a registered body is moved by the simulation.
#[derive(Clone, Copy, Debug, PartialEq, Eq, Structural)]
pub enum BodyKind {
    Static,
    Dynamic,
}

/// Why the world refused to create or change an engine object. Nothing is
/// recorded and nothing is registered when one is returned.
#[derive(Clone, Copy, Debug, PartialEq, Eq, Structural)]
pub enum CreationError {
    /// The world has been torn down.
    WorldReleased,
    /// The material handle was not issued by this world.
    UnknownMaterial,
    /// The body handle was not issued by this world, or names a static body
    /// where a dynamic one is needed.
    UnknownBody,
    /// The controller handle was not issued by this world.
    UnknownController,
    /// The entity lacks a component that the creation reads.
    IncompleteDescriptors,
}

/// Why the world refused to step.
#[derive(Clone, Copy, Debug, PartialEq, Eq, Structural)]
pub enum StepError {
    /// The world has been torn down.
    WorldReleased,
}

/// The physics world as contracts see it.
pub struct PhysXView {
    /// Whether the engine objects exist: true from construction to teardown.
    pub live: bool,
    /// The materials created so far; a material's handle is its index.
    pub materials: Seq<PhysXMaterialDesc>,
    /// The bodies created so far; a body's handle is its index.
    pub bodies: Seq<BodyKind>,
    /// The controllers created so far; a controller's handle is its index.
    pub controllers: Seq<PhysXCapsuleControllerDesc>,
    /// The engine calls decided on and not yet taken by the caller, oldest
    /// first.
    pub calls: Seq<EngineCall>,
}

/// The calls that build the engine: the foundation, then the instance on it
/// with extension loading off, then the scene with a controller manager and
/// one dedicated worker thread.
pub open spec fn startup_calls() -> Seq<EngineCall> {
    seq![
        EngineCall::CreateFoundation { version: PX_PHYSICS_VERSION },
        EngineCall::CreatePhysics { load_extensions: false },
        EngineCall::CreateScene {
            controller_manager: true,
            controller_locking: true,
            dedicated_threads: 1,
        },
    ]
}

/// The calls that take the engine down: the scene, then the instance, then
/// the foundation.
pub open spec fn teardown_calls() -> Seq<EngineCall> {
    seq![EngineCall::ReleaseScene, EngineCall::ReleasePhysics, EngineCall::ReleaseFoundation]
}

impl PhysXView {
    /// A world that has just been built: live, nothing registered, the
    /// startup calls pending.
    pub open spec fn started() -> PhysXView {
        PhysXView {
            live: true,
            materials: Seq::empty(),
            bodies: Seq::empty(),
            controllers: Seq::empty(),
            calls: startup_calls(),
        }
    }

    /// Every registry is short enough for its indices to be handles.
    pub open spec fn fits(self) -> bool {
        self.materials.len() <= usize::MAX && self.bodies.len() <= usize::MAX
            && self.controllers.len() <= usize::MAX
    }

    /// Whether the world issued the material handle.
    pub open spec fn has_material(self, material: MaterialHandle) -> bool {
        material.index < self.materials.len()
    }

    /// Whether the world issued the body handle.
    pub open spec fn has_body(self, body: BodyHandle) -> bool {
        body.index < self.bodies.len()
    }

    /// Whether the world issued the body handle, for a dynamic body.
    pub open spec fn has_dynamic_body(self, body: BodyHandle) -> bool {
        self.has_body(body) && self.bodies[body.index as int] == BodyKind::Dynamic
    }

    /// Whether the world issued the controller handle.
    pub open spec fn has_controller(self, controller: ControllerHandle) -> bool {
        controller.index < self.controllers.len()
    }

    /// The handle that the next material will get.
    pub open spec fn next_material(self) -> MaterialHandle {
        MaterialHandle { index: self.materials.len() as usize }
    }

    /// The handle that the next body will get.
    pub open spec fn next_body(self) -> BodyHandle {
        BodyHandle { index: self.bodies.len() as usize }
    }

    /// The handle that the next controller will get.
    pub open spec fn next_controller(self) -> ControllerHandle {
        ControllerHandle { index: self.controllers.len() as usize }
    }

    /// The world with one more pending call.
    pub open spec fn record(self, call: EngineCall) -> PhysXView {
        PhysXView { calls: self.calls.push(call), ..self }
    }

    /// The world after a material was created.
    pub open spec fn material_created(self, desc: PhysXMaterialDesc) -> PhysXView {
        PhysXView { materials: self.materials.push(desc), ..self }.record(
            EngineCall::CreateMaterial { material: self.next_material(), desc },
        )
    }

    /// The world after a static body was created.
    pub open spec fn static_created(
        self,
        pose: Pose,
        geometry: PhysXColliderDesc,
        material: MaterialHandle,
        shape_scale: Vec3,
    ) -> PhysXView {
        PhysXView { bodies: self.bodies.push(BodyKind::Static), ..self }.record(
            EngineCall::CreateStatic { body: self.next_body(), pose, geometry, material, shape_scale },
        )
    }

    /// The world after a dynamic body was created.
    pub open spec fn dynamic_created(
        self,
        pose: Pose,
        geometry: PhysXColliderDesc,
        material: MaterialHandle,
        density: Real32,
        shape_scale: Vec3,
    ) -> PhysXView {
        PhysXView { bodies: self.bodies.push(BodyKind::Dynamic), ..self }.record(
            EngineCall::CreateDynamic {
                body: self.next_body(),
                pose,
                geometry,
                material,
                density,
                shape_scale,
            },
        )
    }

    /// The world after the angular damping of a body was set.
    pub open spec fn damping_set(self, body: BodyHandle, angular_damping: Real32) -> PhysXView {
        self.record(EngineCall::SetAngularDamping { body, angular_damping })
    }

    /// The world after the body was added to the scene: by the call for
    /// dynamic bodies if it is one, by the general call if not.
    pub open spec fn actor_added(self, body: BodyHandle) -> PhysXView {
        if self.has_dynamic_body(body) {
            self.record(EngineCall::AddDynamic { body })
        } else {
            self.record(EngineCall::AddActor { body })
        }
    }

    /// The world after a capsule controller was added to the scene.
    pub open spec fn controller_added(
        self,
        desc: PhysXCapsuleControllerDesc,
        material: MaterialHandle,
    ) -> PhysXView {
        PhysXView { controllers: self.controllers.push(desc), ..self }.record(
            EngineCall::AddCapsuleController { controller: self.next_controller(), desc, material },
        )
    }

    /// The world after a controller was put at a position.
    pub open spec fn controller_moved(self, controller: ControllerHandle, position: Vec3) -> PhysXView {
        self.record(EngineCall::SetControllerPosition { controller, position })
    }

    /// The world after one step: the scene is advanced, then the results are
    /// waited for.
    pub open spec fn stepped(self, dt: Real32) -> PhysXView {
        self.record(EngineCall::Simulate { dt }).record(EngineCall::FetchResults { block: true })
    }

    /// The world after teardown. A world that is already down stays as it is.
    pub open spec fn released(self) -> PhysXView {
        if self.live {
            PhysXView { live: false, calls: self.calls + teardown_calls(), ..self }
        } else {
            self
        }
    }

    /// The world after the caller took the pending calls.
    pub open spec fn drained(self) -> PhysXView {
        PhysXView { calls: Seq::empty(), ..self }
    }
}

/// The physics world. It decides the engine calls and keeps them, in order,
/// until the caller takes them with `take_calls` and makes them.
pub struct PhysX {
    live: bool,
    materials: Vec<PhysXMaterialDesc>,
    bodies: Vec<BodyKind>,
    controllers: Vec<PhysXCapsuleControllerDesc>,
    calls: Vec<EngineCall>,
}

impl View for PhysX {
    type V = PhysXView;

    closed spec fn view(&self) -> PhysXView {
        PhysXView {
            live: self.live,
            materials: self.materials@,
            bodies: self.bodies@,
            controllers: self.controllers@,
            calls: self.calls@,
        }
    }
}

impl Default for PhysX {
    /// Builds the world: it is live and the startup calls are pending.
    fn default() -> (world: PhysX)
        ensures
            world@ == PhysXView::started(),
    {
        let mut calls: Vec<EngineCall> = Vec::new();
        calls.push(EngineCall::CreateFoundation { version: PX_PHYSICS_VERSION });
        calls.push(EngineCall::CreatePhysics { load_extensions: false });
        calls.push(
            EngineCall::CreateScene {
                controller_manager: true,
                controller_locking: true,
                dedicated_threads: 1,
            },
        );
        let world = PhysX {
            live: true,
            materials: Vec::new(),
            bodies: Vec::new(),
            controllers: Vec::new(),
            calls,
        };
        assert(world@.calls =~= startup_calls());
        world
    }
}

impl PhysX {
    /// The registries of a world are short enough for handles.
    pub proof fn lemma_fits(&self)
        ensures
            self@.fits(),
    {
        assert(self.materials@.len() == self.materials.len());
        assert(self.bodies@.len() == self.bodies.len());
        assert(self.controllers@.len() == self.controllers.len());
    }

    /// Whether the world has not been torn down.
    pub fn is_live(&self) -> (live: bool)
        ensures
            live == self@.live,
    {
        self.live
    }

    /// The number of materials created so far.
    pub fn material_count(&self) -> (n: usize)
        ensures
            n == self@.materials.len(),
    {
        self.materials.len()
    }

    /// The number of bodies created so far.
    pub fn body_count(&self) -> (n: usize)
        ensures
            n == self@.bodies.len(),
    {
        self.bodies.len()
    }

    /// The number of controllers created so far.
    pub fn controller_count(&self) -> (n: usize)
        ensures
            n == self@.controllers.len(),
    {
        self.controllers.len()
    }

    /// The kind of a body, or `None` for a handle that this world did not
    /// issue.
    pub fn body_kind(&self, body: BodyHandle) -> (kind: Option<BodyKind>)
        ensures
            kind == (if self@.has_body(body) {
                Some(self@.bodies[body.index as int])
            } else {
                None
            }),
    {
        if body.index < self.bodies.len() {
            Some(self.bodies[body.index])
        } else {
            None
        }
    }

    /// Hands over the pending engine calls, oldest first, and forgets them.
    pub fn take_calls(&mut self) -> (calls: Vec<EngineCall>)
        ensures
            calls@ == old(self)@.calls,
            final(self)@ == old(self)@.drained(),
    {
        let mut calls: Vec<EngineCall> = Vec::new();
        std::mem::swap(&mut self.calls, &mut calls);
        calls
    }

    /// Tears the world down: scene, instance, foundation, in that order. A
    /// second teardown does nothing.
    pub fn release(&mut self) -> (released: bool)
        ensures
            released == old(self)@.live,
            final(self)@ == old(self)@.released(),
    {
        if !self.live {
            return false;
        }
        self.calls.push(EngineCall::ReleaseScene);
        self.calls.push(EngineCall::ReleasePhysics);
        self.calls.push(EngineCall::ReleaseFoundation);
        self.live = false;
        assert(self@.calls =~= old(self)@.calls + teardown_calls());
        true
    }

    /// Creates a material with the given friction and restitution.
    pub fn create_material(&mut self, desc: PhysXMaterialDesc) -> (r: Result<
        MaterialHandle,
        CreationError,
    >)
        ensures
            r is Ok <==> old(self)@.live,
            r is Ok ==> r == Ok::<MaterialHandle, CreationError>(old(self)@.next_material())
                && final(self)@ == old(self)@.material_created(desc),
            r is Err ==> r == Err::<MaterialHandle, CreationError>(CreationError::WorldReleased)
                && final(self)@ == old(self)@,
    {
        if !self.live {
            return Err(CreationError::WorldReleased);
        }
        let material = MaterialHandle { index: self.materials.len() };
        self.materials.push(desc);
        self.calls.push(EngineCall::CreateMaterial { material, desc });
        Ok(material)
    }

    /// What `create_static_actor` and `create_dynamic_actor` refuse: a world
    /// that is down, then a material that it did not issue.
    pub open spec fn actor_refusal(view: PhysXView, material: MaterialHandle) -> Option<
        CreationError,
    > {
        if !view.live {
            Some(CreationError::WorldReleased)
        } else if !view.has_material(material) {
            Some(CreationError::UnknownMaterial)
        } else {
            None
        }
    }

    /// Creates a body that the simulation does not move.
    pub fn create_static_actor(
        &mut self,
        pose: Pose,
        geometry: PhysXColliderDesc,
        material: MaterialHandle,
        shape_scale: Vec3,
    ) -> (r: Result<BodyHandle, CreationError>)
        ensures
            match PhysX::actor_refusal(old(self)@, material) {
                Some(e) => r == Err::<BodyHandle, CreationError>(e) && final(self)@ == old(self)@,
                None => r == Ok::<BodyHandle, CreationError>(old(self)@.next_body())
                    && final(self)@ == old(self)@.static_created(
                    pose,
                    geometry,
                    material,
                    shape_scale,
                ),
            },
    {
        if !self.live {
            return Err(CreationError::WorldReleased);
        }
        if material.index >= self.materials.len() {
            return Err(CreationError::UnknownMaterial);
        }
        let body = BodyHandle { index: self.bodies.len() };
        self.bodies.push(BodyKind::Static);
        self.calls.push(EngineCall::CreateStatic { body, pose, geometry, material, shape_scale });
        Ok(body)
    }

    /// Creates a body of the given density that the simulation moves.
    pub fn create_dynamic_actor(
        &mut self,
        pose: Pose,
        geometry: PhysXColliderDesc,
        material: MaterialHandle,
        density: Real32,
        shape_scale: Vec3,
    ) -> (r: Result<BodyHandle, CreationError>)
        ensures
            match PhysX::actor_refusal(old(self)@, material) {
                Some(e) => r == Err::<BodyHandle, CreationError>(e) && final(self)@ == old(self)@,
                None => r == Ok::<BodyHandle, CreationError>(old(self)@.next_body())
                    && final(self)@ == old(self)@.dynamic_created(
                    pose,
                    geometry,
                    material,
                    density,
                    shape_scale,
                ),
            },
    {
        if !self.live {
            return Err(CreationError::WorldReleased);
        }
        if material.index >= self.materials.len() {
            return Err(CreationError::UnknownMaterial);
        }
        let body = BodyHandle { index: self.bodies.len() };
        self.bodies.push(BodyKind::Dynamic);
        self.calls.push(
            EngineCall::CreateDynamic { body, pose, geometry, material, density, shape_scale },
        );
        Ok(body)
    }

    /// What `set_angular_damping` refuses: a world that is down, then a body
    /// that is not a dynamic body of this world.
    pub open spec fn damping_refusal(view: PhysXView, body: BodyHandle) -> Option<CreationError> {
        if !view.live {
            Some(CreationError::WorldReleased)
        } else if !view.has_dynamic_body(body) {
            Some(CreationError::UnknownBody)
        } else {
            None
        }
    }

    /// Sets the angular damping of a dynamic body.
    pub fn set_angular_damping(&mut self, body: BodyHandle, angular_damping: Real32) -> (r: Result<
        (),
        CreationError,
    >)
        ensures
            match PhysX::damping_refusal(old(self)@, body) {
                Some(e) => r == Err::<(), CreationError>(e) && final(self)@ == old(self)@,
                None => r is Ok && final(self)@ == old(self)@.damping_set(body, angular_damping),
            },
    {
        if !self.live {
            return Err(CreationError::WorldReleased);
        }
        if body.index >= self.bodies.len() {
            return Err(CreationError::UnknownBody);
        }
        match self.bodies[body.index] {
            BodyKind::Static => Err(CreationError::UnknownBody),
            BodyKind::Dynamic => {
                self.calls.push(EngineCall::SetAngularDamping { body, angular_damping });
                Ok(())
            },
        }
    }

    /// What `add_actor` refuses: a world that is down, then a body that it
    /// did not issue.
    pub open spec fn adding_refusal(view: PhysXView, body: BodyHandle) -> Option<CreationError> {
        if !view.live {
            Some(CreationError::WorldReleased)
        } else if !view.has_body(body) {
            Some(CreationError::UnknownBody)
        } else {
            None
        }
    }

    /// Adds a created body to the scene.
    pub fn add_actor(&mut self, body: BodyHandle) -> (r: Result<(), CreationError>)
        ensures
            match PhysX::adding_refusal(old(self)@, body) {
                Some(e) => r == Err::<(), CreationError>(e) && final(self)@ == old(self)@,
                None => r is Ok && final(self)@ == old(self)@.actor_added(body),
            },
    {
        if !self.live {
            return Err(CreationError::WorldReleased);
        }
        if body.index >= self.bodies.len() {
            return Err(CreationError::UnknownBody);
        }
        match self.bodies[body.index] {
            BodyKind::Static => {
                self.calls.push(EngineCall::AddActor { body });
            },
            BodyKind::Dynamic => {
                self.calls.push(EngineCall::AddDynamic { body });
            },
        }
        Ok(())
    }

    /// Adds a capsule character controller, made of the given material, to
    /// the scene's controller manager.
    pub fn add_capsule_controller(
        &mut self,
        desc: PhysXCapsuleControllerDesc,
        material: MaterialHandle,
    ) -> (r: Result<ControllerHandle, CreationError>)
        ensures
            match PhysX::actor_refusal(old(self)@, material) {
                Some(e) => r == Err::<ControllerHandle, CreationError>(e) && final(self)@ == old(
                    self,
                )@,
                None => r == Ok::<ControllerHandle, CreationError>(old(self)@.next_controller())
                    && final(self)@ == old(self)@.controller_added(desc, material),
            },
    {
        if !self.live {
            return Err(CreationError::WorldReleased);
        }
        if material.index >= self.materials.len() {
            return Err(CreationError::UnknownMaterial);
        }
        let controller = ControllerHandle { index: self.controllers.len() };
        self.controllers.push(desc);
        self.calls.push(EngineCall::AddCapsuleController { controller, desc, material });
        Ok(controller)
    }

    /// What `set_controller_position` refuses: a world that is down, then a
    /// controller that it did not issue.
    pub open spec fn moving_refusal(view: PhysXView, controller: ControllerHandle) -> Option<
        CreationError,
    > {
        if !view.live {
            Some(CreationError::WorldReleased)
        } else if !view.has_controller(controller) {
            Some(CreationError::UnknownController)
        } else {
            None
        }
    }

    /// Puts a controller at a position.
    pub fn set_controller_position(&mut self, controller: ControllerHandle, position: Vec3) -> (r:
        Result<(), CreationError>)
        ensures
            match PhysX::moving_refusal(old(self)@, controller) {
                Some(e) => r == Err::<(), CreationError>(e) && final(self)@ == old(self)@,
                None => r is Ok && final(self)@ == old(self)@.controller_moved(controller, position),
            },
    {
        if !self.live {
            return Err(CreationError::WorldReleased);
        }
        if controller.index >= self.controllers.len() {
            return Err(CreationError::UnknownController);
        }
        self.calls.push(EngineCall::SetControllerPosition { controller, position });
        Ok(())
    }

    /// Advances the scene by `dt` and waits for the results.
    pub fn step(&mut self, dt: Real32) -> (r: Result<(), StepError>)
        ensures
            r is Ok <==> old(self)@.live,
            r is Ok ==> final(self)@ == old(self)@.stepped(dt),
            r is Err ==> r == Err::<(), StepError>(StepError::WorldReleased) && final(self)@ == old(
                self,
            )@,
    {
        if !self.live {
            return Err(StepError::WorldReleased);
        }
        self.calls.push(EngineCall::Simulate { dt });
        self.calls.push(EngineCall::FetchResults { block: true });
        Ok(())
    }

    /// The body whose pose the engine is to be asked for, if the handle names
    /// a dynamic body of a live world.
    pub fn pose_query(&self, body: BodyHandle) -> (query: Option<BodyHandle>)
        ensures
            query == (if self@.live && self@.has_dynamic_body(body) {
                Some(body)
            } else {
                None
            }),
    {
        if !self.live || body.index >= self.bodies.len() {
            return None;
        }
        match self.bodies[body.index] {
            BodyKind::Static => None,
            BodyKind::Dynamic => Some(body),
        }
    }
}

} // verus!

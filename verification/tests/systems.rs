use bevy_physx::desc::{
    BodyHandle, Components, ControllerHandle, MaterialHandle, PhysXCapsuleControllerDesc,
    PhysXColliderDesc, PhysXController, PhysXDynamicRigidBodyHandle, PhysXMaterialDesc,
    PhysXRigidBodyDesc, PhysXStaticRigidBodyHandle, Pose, Quat, Transform, Vec3,
};
use bevy_physx::engine::EngineCall;
use bevy_physx::plugin::{BridgeSystem, CoreStage, PhysXPlugin, Registration};
use bevy_physx::scalar::Real32;
use bevy_physx::systems::{
    create_body_collider, physx_create_body_material_collider, physx_create_character_controller,
    physx_step_simulation, physx_sync_queries, physx_sync_transforms,
};
use bevy_physx::world::{CreationError, PhysX, StepError};

fn num(v: f32) -> Real32 {
    Real32::from_bits(v.to_bits())
}

fn float(v: Real32) -> f32 {
    f32::from_bits(v.to_bits())
}

fn vec3(x: f32, y: f32, z: f32) -> Vec3 {
    Vec3 { x: num(x), y: num(y), z: num(z) }
}

fn no_rotation() -> Quat {
    Quat { x: num(0.0), y: num(0.0), z: num(0.0), w: num(1.0) }
}

fn at(x: f32, y: f32, z: f32) -> Transform {
    Transform { translation: vec3(x, y, z), rotation: no_rotation(), scale: vec3(1.0, 1.0, 1.0) }
}

fn rubber() -> PhysXMaterialDesc {
    PhysXMaterialDesc {
        static_friction: num(0.5),
        dynamic_friction: num(0.5),
        restitution: num(0.6),
    }
}

fn ground() -> Components {
    Components {
        material: Some(rubber()),
        collider: Some(PhysXColliderDesc::Box(num(5.0), num(0.5), num(5.0))),
        rigid_body: Some(PhysXRigidBodyDesc::Static),
        transform: Some(at(0.0, 0.0, 0.0)),
        ..Components::empty()
    }
}

fn ball(y: f32) -> Components {
    Components {
        material: Some(rubber()),
        collider: Some(PhysXColliderDesc::Sphere(num(0.5))),
        rigid_body: Some(PhysXRigidBodyDesc::Dynamic {
            density: num(10.0),
            angular_damping: num(0.5),
        }),
        transform: Some(at(0.0, y, 0.0)),
        ..Components::empty()
    }
}

fn walker() -> Components {
    Components {
        material: Some(rubber()),
        capsule: Some(PhysXCapsuleControllerDesc {
            height: num(1.75),
            radius: num(0.3),
            step_offset: num(0.5),
        }),
        transform: Some(Transform {
            translation: vec3(0.0, 1.05, 0.0),
            rotation: no_rotation(),
            scale: vec3(1.0, 1.75, 1.0),
        }),
        ..Components::empty()
    }
}

fn started() -> PhysX {
    let mut physx = PhysX::default();
    physx.take_calls();
    physx
}

/// A stand-in for the engine: it keeps the calls it was given and lets
/// dynamic bodies fall under gravity, without collisions.
struct Engine {
    log: Vec<EngineCall>,
    bodies: Vec<Option<(Pose, f32)>>,
    gravity: f32,
}

impl Engine {
    fn new() -> Engine {
        Engine { log: Vec::new(), bodies: Vec::new(), gravity: -9.81 }
    }

    fn perform(&mut self, calls: Vec<EngineCall>) {
        for call in calls {
            match call {
                EngineCall::CreateStatic { body, .. } => {
                    assert_eq!(body.index, self.bodies.len());
                    self.bodies.push(None);
                }
                EngineCall::CreateDynamic { body, pose, .. } => {
                    assert_eq!(body.index, self.bodies.len());
                    self.bodies.push(Some((pose, 0.0)));
                }
                EngineCall::Simulate { dt } => {
                    let dt = float(dt);
                    assert!(dt > 0.0);
                    for (pose, speed) in self.bodies.iter_mut().flatten() {
                        *speed += self.gravity * dt;
                        pose.translation.y = num(float(pose.translation.y) + *speed * dt);
                    }
                }
                _ => {}
            }
            self.log.push(call);
        }
    }

    fn global_pose(&self, body: BodyHandle) -> Transform {
        let (pose, _) = self.bodies[body.index].expect("a dynamic body");
        Transform {
            translation: pose.translation,
            rotation: pose.rotation,
            scale: vec3(1.0, 1.0, 1.0),
        }
    }
}

fn frame(world: &mut Vec<Components>, physx: &mut PhysX, engine: &mut Engine, dt: f32) {
    physx_create_character_controller(world, physx).unwrap();
    physx_create_body_material_collider(world, physx).unwrap();
    engine.perform(physx.take_calls());
    physx_step_simulation(num(dt), physx).unwrap();
    engine.perform(physx.take_calls());
    let queries = physx_sync_queries(world, physx);
    let poses: Vec<Option<Transform>> =
        queries.iter().map(|q| q.map(|body| engine.global_pose(body))).collect();
    physx_sync_transforms(world, &poses);
}

#[test]
fn static_entity_gets_a_static_handle_and_loses_its_descriptors() {
    let mut physx = started();
    let mut world = vec![ground()];
    assert_eq!(physx_create_body_material_collider(&mut world, &mut physx), Ok(()));
    assert_eq!(
        world,
        vec![Components {
            transform: Some(at(0.0, 0.0, 0.0)),
            static_body: Some(PhysXStaticRigidBodyHandle(BodyHandle { index: 0 })),
            ..Components::empty()
        }]
    );
}

#[test]
fn static_body_is_created_at_the_origin_whatever_the_transform() {
    let mut physx = started();
    let mut entity = ground();
    entity.transform = Some(Transform {
        translation: vec3(3.0, 4.0, 5.0),
        rotation: Quat { x: num(0.0), y: num(1.0), z: num(0.0), w: num(0.0) },
        scale: vec3(10.0, 1.0, 10.0),
    });
    let mut world = vec![entity];
    physx_create_body_material_collider(&mut world, &mut physx).unwrap();
    assert_eq!(
        physx.take_calls(),
        vec![
            EngineCall::CreateMaterial { material: MaterialHandle { index: 0 }, desc: rubber() },
            EngineCall::CreateStatic {
                body: BodyHandle { index: 0 },
                pose: Pose { rotation: no_rotation(), translation: vec3(0.0, 0.0, 0.0) },
                geometry: PhysXColliderDesc::Box(num(5.0), num(0.5), num(5.0)),
                material: MaterialHandle { index: 0 },
                shape_scale: vec3(1.0, 1.0, 1.0),
            },
            EngineCall::AddActor { body: BodyHandle { index: 0 } },
        ]
    );
    assert_eq!(world[0].transform, entity.transform);
}

#[test]
fn dynamic_entity_gets_a_dynamic_handle_and_loses_its_descriptors() {
    let mut physx = started();
    let mut world = vec![ball(7.5)];
    assert_eq!(physx_create_body_material_collider(&mut world, &mut physx), Ok(()));
    assert_eq!(
        world,
        vec![Components {
            transform: Some(at(0.0, 7.5, 0.0)),
            dynamic_body: Some(PhysXDynamicRigidBodyHandle(BodyHandle { index: 0 })),
            ..Components::empty()
        }]
    );
}

#[test]
fn dynamic_body_is_created_at_the_entity_pose_with_density_and_damping() {
    let mut physx = started();
    let mut entity = ball(7.5);
    let turned = Quat { x: num(0.0), y: num(0.6), z: num(0.0), w: num(0.8) };
    entity.transform = Some(Transform {
        translation: vec3(-2.5, 7.5, 1.5),
        rotation: turned,
        scale: vec3(2.0, 3.0, 4.0),
    });
    let mut world = vec![entity];
    physx_create_body_material_collider(&mut world, &mut physx).unwrap();
    assert_eq!(
        physx.take_calls(),
        vec![
            EngineCall::CreateMaterial { material: MaterialHandle { index: 0 }, desc: rubber() },
            EngineCall::CreateDynamic {
                body: BodyHandle { index: 0 },
                pose: Pose { rotation: turned, translation: vec3(-2.5, 7.5, 1.5) },
                geometry: PhysXColliderDesc::Sphere(num(0.5)),
                material: MaterialHandle { index: 0 },
                density: num(10.0),
                shape_scale: vec3(2.0, 3.0, 4.0),
            },
            EngineCall::SetAngularDamping {
                body: BodyHandle { index: 0 },
                angular_damping: num(0.5)
            },
            EngineCall::AddDynamic { body: BodyHandle { index: 0 } },
        ]
    );
}

#[test]
fn every_entity_gets_a_material_of_its_own() {
    let mut physx = started();
    let mut world = vec![ground(), Components::empty(), ball(7.5), ball(8.5)];
    physx_create_body_material_collider(&mut world, &mut physx).unwrap();
    assert_eq!(physx.material_count(), 3);
    assert_eq!(physx.body_count(), 3);
    assert_eq!(world[0].static_body, Some(PhysXStaticRigidBodyHandle(BodyHandle { index: 0 })));
    assert_eq!(world[1], Components::empty());
    assert_eq!(world[2].dynamic_body, Some(PhysXDynamicRigidBodyHandle(BodyHandle { index: 1 })));
    assert_eq!(world[3].dynamic_body, Some(PhysXDynamicRigidBodyHandle(BodyHandle { index: 2 })));
    let materials: Vec<MaterialHandle> = physx
        .take_calls()
        .into_iter()
        .filter_map(|call| match call {
            EngineCall::CreateStatic { material, .. } => Some(material),
            EngineCall::CreateDynamic { material, .. } => Some(material),
            _ => None,
        })
        .collect();
    assert_eq!(
        materials,
        vec![
            MaterialHandle { index: 0 },
            MaterialHandle { index: 1 },
            MaterialHandle { index: 2 }
        ]
    );
}

#[test]
fn incomplete_descriptor_sets_are_left_alone() {
    let mut physx = started();
    let mut no_material = ball(1.0);
    no_material.material = None;
    let mut no_collider = ball(1.0);
    no_collider.collider = None;
    let mut no_body = ball(1.0);
    no_body.rigid_body = None;
    let mut no_transform = ball(1.0);
    no_transform.transform = None;
    let before = vec![no_material, no_collider, no_body, no_transform];
    let mut world = before.clone();
    assert_eq!(physx_create_body_material_collider(&mut world, &mut physx), Ok(()));
    assert_eq!(world, before);
    assert_eq!(physx.take_calls(), vec![]);
    assert_eq!(physx.material_count(), 0);
}

#[test]
fn a_second_actor_pass_does_nothing() {
    let mut physx = started();
    let mut world = vec![ground(), ball(7.5)];
    physx_create_body_material_collider(&mut world, &mut physx).unwrap();
    let after_one = world.clone();
    assert_eq!(physx.take_calls().len(), 7);
    assert_eq!(physx_create_body_material_collider(&mut world, &mut physx), Ok(()));
    assert_eq!(physx_create_body_material_collider(&mut world, &mut physx), Ok(()));
    assert_eq!(world, after_one);
    assert_eq!(physx.take_calls(), vec![]);
    assert_eq!(physx.body_count(), 2);
    assert_eq!(physx.material_count(), 2);
}

#[test]
fn a_second_controller_pass_does_nothing() {
    let mut physx = started();
    let mut world = vec![walker()];
    physx_create_character_controller(&mut world, &mut physx).unwrap();
    let after_one = world.clone();
    assert_eq!(physx.take_calls().len(), 3);
    assert_eq!(physx_create_character_controller(&mut world, &mut physx), Ok(()));
    assert_eq!(world, after_one);
    assert_eq!(physx.take_calls(), vec![]);
    assert_eq!(physx.controller_count(), 1);
}

#[test]
fn controller_entity_gets_a_controller_at_its_translation() {
    let mut physx = started();
    let mut world = vec![walker()];
    assert_eq!(physx_create_character_controller(&mut world, &mut physx), Ok(()));
    assert_eq!(
        world,
        vec![Components {
            transform: walker().transform,
            controller: Some(PhysXController(ControllerHandle { index: 0 })),
            ..Components::empty()
        }]
    );
    assert_eq!(
        physx.take_calls(),
        vec![
            EngineCall::CreateMaterial { material: MaterialHandle { index: 0 }, desc: rubber() },
            EngineCall::AddCapsuleController {
                controller: ControllerHandle { index: 0 },
                desc: PhysXCapsuleControllerDesc {
                    height: num(1.75),
                    radius: num(0.3),
                    step_offset: num(0.5),
                },
                material: MaterialHandle { index: 0 },
            },
            EngineCall::SetControllerPosition {
                controller: ControllerHandle { index: 0 },
                position: vec3(0.0, 1.05, 0.0)
            },
        ]
    );
}

#[test]
fn controller_entity_is_not_taken_for_a_rigid_body() {
    let mut physx = started();
    let mut both = walker();
    both.collider = Some(PhysXColliderDesc::Capsule(num(0.3), num(0.6)));
    both.rigid_body = Some(PhysXRigidBodyDesc::Dynamic {
        density: num(1.0),
        angular_damping: num(0.0),
    });
    let mut world = vec![both, ball(7.5)];
    physx_create_character_controller(&mut world, &mut physx).unwrap();
    physx_create_body_material_collider(&mut world, &mut physx).unwrap();
    assert_eq!(world[0].controller, Some(PhysXController(ControllerHandle { index: 0 })));
    assert_eq!(world[0].static_body, None);
    assert_eq!(world[0].dynamic_body, None);
    assert_eq!(world[0].collider, both.collider);
    assert_eq!(world[0].rigid_body, both.rigid_body);
    assert_eq!(world[1].dynamic_body, Some(PhysXDynamicRigidBodyHandle(BodyHandle { index: 0 })));
    assert_eq!(physx.body_count(), 1);
    assert_eq!(physx.controller_count(), 1);
}

#[test]
fn passes_on_a_released_world_change_nothing() {
    let mut physx = PhysX::default();
    physx.release();
    physx.take_calls();
    let before = vec![ground(), ball(7.5), walker()];
    let mut world = before.clone();
    assert_eq!(
        physx_create_character_controller(&mut world, &mut physx),
        Err(CreationError::WorldReleased)
    );
    assert_eq!(
        physx_create_body_material_collider(&mut world, &mut physx),
        Err(CreationError::WorldReleased)
    );
    assert_eq!(world, before);
    assert_eq!(physx.take_calls(), vec![]);
    assert_eq!(physx_sync_queries(&world, &physx), vec![None, None, None]);
}

#[test]
fn body_creation_reports_what_is_missing() {
    let mut physx = started();
    let material = physx.create_material(rubber()).unwrap();
    physx.take_calls();
    let mut no_collider = ball(1.0);
    no_collider.collider = None;
    assert_eq!(
        create_body_collider(&no_collider, material, &mut physx),
        Err(CreationError::IncompleteDescriptors)
    );
    let mut no_transform = ground();
    no_transform.transform = None;
    assert_eq!(
        create_body_collider(&no_transform, material, &mut physx),
        Err(CreationError::IncompleteDescriptors)
    );
    assert_eq!(
        create_body_collider(&ball(1.0), MaterialHandle { index: 5 }, &mut physx),
        Err(CreationError::UnknownMaterial)
    );
    assert_eq!(physx.take_calls(), vec![]);
    let made = create_body_collider(&ball(1.0), material, &mut physx).unwrap();
    assert_eq!(
        made,
        Components {
            dynamic_body: Some(PhysXDynamicRigidBodyHandle(BodyHandle { index: 0 })),
            ..ball(1.0)
        }
    );
    assert_eq!(physx.take_calls().len(), 3);
    physx.release();
    assert_eq!(
        create_body_collider(&ball(1.0), material, &mut physx),
        Err(CreationError::WorldReleased)
    );
}

#[test]
fn no_elapsed_time_no_engine_call() {
    let mut physx = started();
    for dt in [0.0f32, -0.0, -1.0 / 60.0, f32::NAN, f32::NEG_INFINITY] {
        assert_eq!(physx_step_simulation(num(dt), &mut physx), Ok(false));
        assert_eq!(physx.take_calls(), vec![]);
    }
    physx.release();
    physx.take_calls();
    assert_eq!(physx_step_simulation(num(0.0), &mut physx), Ok(false));
    assert_eq!(physx.take_calls(), vec![]);
}

#[test]
fn elapsed_time_steps_and_waits() {
    let mut physx = started();
    assert_eq!(physx_step_simulation(num(1.0 / 60.0), &mut physx), Ok(true));
    assert_eq!(
        physx.take_calls(),
        vec![
            EngineCall::Simulate { dt: num(1.0 / 60.0) },
            EngineCall::FetchResults { block: true }
        ]
    );
    physx.release();
    physx.take_calls();
    assert_eq!(physx_step_simulation(num(1.0 / 60.0), &mut physx), Err(StepError::WorldReleased));
    assert_eq!(physx.take_calls(), vec![]);
}

#[test]
fn poses_are_asked_for_dynamic_bodies_only() {
    let mut physx = started();
    let mut world = vec![ground(), ball(7.5), walker(), Components::empty()];
    physx_create_character_controller(&mut world, &mut physx).unwrap();
    physx_create_body_material_collider(&mut world, &mut physx).unwrap();
    assert_eq!(
        physx_sync_queries(&world, &physx),
        vec![None, Some(BodyHandle { index: 1 }), None, None]
    );
    let mut stray = ball(1.0);
    stray.dynamic_body = Some(PhysXDynamicRigidBodyHandle(BodyHandle { index: 0 }));
    let mut unknown = ball(1.0);
    unknown.dynamic_body = Some(PhysXDynamicRigidBodyHandle(BodyHandle { index: 40 }));
    let mut unplaced = world[1];
    unplaced.transform = None;
    assert_eq!(physx_sync_queries(&vec![stray, unknown, unplaced], &physx), vec![None, None, None]);
}

#[test]
fn sync_overwrites_the_whole_transform_of_dynamic_entities() {
    let mut physx = started();
    let mut scaled = ball(7.5);
    scaled.transform = Some(Transform {
        translation: vec3(0.0, 7.5, 0.0),
        rotation: no_rotation(),
        scale: vec3(2.0, 2.0, 2.0),
    });
    let mut world = vec![ground(), scaled, walker()];
    physx_create_character_controller(&mut world, &mut physx).unwrap();
    physx_create_body_material_collider(&mut world, &mut physx).unwrap();
    let before = world.clone();
    let reported = at(1.0, 2.0, 3.0);
    physx_sync_transforms(&mut world, &vec![Some(reported), Some(reported), Some(reported)]);
    assert_eq!(world[0], before[0]);
    assert_eq!(world[2], before[2]);
    assert_eq!(world[1], Components { transform: Some(reported), ..before[1] });
    let mut again = before.clone();
    physx_sync_transforms(&mut again, &vec![None, None]);
    assert_eq!(again, before);
    physx_sync_transforms(&mut again, &vec![]);
    assert_eq!(again, before);
}

#[test]
fn falling_sphere() {
    let mut physx = PhysX::default();
    let mut engine = Engine::new();
    let mut world = vec![ball(7.5)];
    frame(&mut world, &mut physx, &mut engine, 0.0);
    assert_eq!(
        world[0].dynamic_body,
        Some(PhysXDynamicRigidBodyHandle(BodyHandle { index: 0 }))
    );
    assert_eq!(world[0].transform, Some(at(0.0, 7.5, 0.0)));
    for _ in 0..60 {
        frame(&mut world, &mut physx, &mut engine, 1.0 / 60.0);
    }
    let y = float(world[0].transform.unwrap().translation.y);
    assert!(y < 7.5, "{y}");
    assert!(y > 7.5 - 9.81 * 1.0, "{y}");
    let steps = engine.log.iter().filter(|c| matches!(c, EngineCall::Simulate { .. })).count();
    assert_eq!(steps, 60);
    let creations =
        engine.log.iter().filter(|c| matches!(c, EngineCall::CreateDynamic { .. })).count();
    assert_eq!(creations, 1);
}

#[test]
fn frames_without_elapsed_time_change_no_transform() {
    let mut physx = PhysX::default();
    let mut engine = Engine::new();
    let mut world = vec![ground(), ball(7.5), walker()];
    frame(&mut world, &mut physx, &mut engine, 1.0 / 60.0);
    let settled = world.clone();
    let calls = engine.log.len();
    frame(&mut world, &mut physx, &mut engine, 0.0);
    frame(&mut world, &mut physx, &mut engine, 0.0);
    assert_eq!(world, settled);
    assert_eq!(engine.log.len(), calls);
}

#[test]
fn static_entity_keeps_its_transform_across_steps() {
    let mut physx = PhysX::default();
    let mut engine = Engine::new();
    let mut world = vec![ground(), ball(7.5)];
    for _ in 0..10 {
        frame(&mut world, &mut physx, &mut engine, 1.0 / 60.0);
        assert_eq!(world[0].transform, Some(at(0.0, 0.0, 0.0)));
        assert_eq!(world[0].static_body, Some(PhysXStaticRigidBodyHandle(BodyHandle { index: 0 })));
    }
    assert_ne!(world[1].transform, Some(at(0.0, 7.5, 0.0)));
}

#[test]
fn engine_is_built_first_and_released_last_in_order() {
    let mut physx = PhysX::default();
    let mut engine = Engine::new();
    let mut world = vec![ground(), ball(7.5), walker()];
    frame(&mut world, &mut physx, &mut engine, 1.0 / 60.0);
    physx.release();
    engine.perform(physx.take_calls());
    assert!(matches!(engine.log[0], EngineCall::CreateFoundation { .. }));
    assert!(matches!(engine.log[1], EngineCall::CreatePhysics { .. }));
    assert!(matches!(engine.log[2], EngineCall::CreateScene { .. }));
    let n = engine.log.len();
    assert_eq!(
        engine.log[n - 3..],
        [EngineCall::ReleaseScene, EngineCall::ReleasePhysics, EngineCall::ReleaseFoundation]
    );
    assert!(engine.log[..n - 3].iter().all(|c| !matches!(
        c,
        EngineCall::ReleaseScene | EngineCall::ReleasePhysics | EngineCall::ReleaseFoundation
    )));
}

#[test]
fn plugin_registers_the_systems_in_frame_order() {
    assert_eq!(
        PhysXPlugin.build(),
        vec![
            Registration {
                stage: CoreStage::PreUpdate,
                system: BridgeSystem::CreateCharacterController
            },
            Registration {
                stage: CoreStage::PreUpdate,
                system: BridgeSystem::CreateBodyMaterialCollider
            },
            Registration { stage: CoreStage::Update, system: BridgeSystem::StepSimulation },
            Registration { stage: CoreStage::PostUpdate, system: BridgeSystem::SyncTransforms },
        ]
    );
}

#[test]
fn two_controllers_get_handles_of_their_own() {
    let mut physx = started();
    let mut world = vec![walker(), ground(), walker()];
    physx_create_character_controller(&mut world, &mut physx).unwrap();
    assert_eq!(world[0].controller, Some(PhysXController(ControllerHandle { index: 0 })));
    assert_eq!(world[2].controller, Some(PhysXController(ControllerHandle { index: 1 })));
    assert_eq!(world[1], ground());
    assert_eq!(physx.controller_count(), 2);
    assert_eq!(physx.material_count(), 2);
    assert_eq!(physx.body_count(), 0);
    assert_eq!(physx.take_calls().len(), 6);
}

#[test]
fn the_pose_of_a_transform_leaves_the_scale_out() {
    let turned = Quat { x: num(0.0), y: num(0.6), z: num(0.0), w: num(0.8) };
    let transform =
        Transform { translation: vec3(1.0, 2.0, 3.0), rotation: turned, scale: vec3(4.0, 5.0, 6.0) };
    assert_eq!(
        Pose::from_transform(&transform),
        Pose { rotation: turned, translation: vec3(1.0, 2.0, 3.0) }
    );
}

#[test]
fn a_write_to_a_dynamic_transform_is_lost_at_the_next_sync() {
    let mut physx = PhysX::default();
    let mut engine = Engine::new();
    let mut world = vec![ball(7.5)];
    frame(&mut world, &mut physx, &mut engine, 1.0 / 60.0);
    let reported = world[0].transform;
    world[0].transform = Some(at(100.0, 100.0, 100.0));
    frame(&mut world, &mut physx, &mut engine, 0.0);
    assert_eq!(world[0].transform, reported);
}

//! The declarative descriptors that the host attaches to an entity, the
//! host's pose, and the handles that take the descriptors' place.

use vstd::prelude::*;
use crate::scalar::Real32;

verus! {

/// Three numbers: a position, a scale or box extents.
#[derive(Clone, Copy, Debug, PartialEq, Eq, Structural)]
pub struct Vec3 {
    pub x: Real32,
    pub y: Real32,
    pub z: Real32,
}

/// A rotation as a quaternion.
#[derive(Clone, Copy, Debug, PartialEq, Eq, Structural)]
pub struct Quat {
    pub x: Real32,
    pub y: Real32,
    pub z: Real32,
    pub w: Real32,
}

/// The host's pose of an entity.
#[derive(Clone, Copy, Debug, PartialEq, Eq, Structural)]
pub struct Transform {
    pub translation: Vec3,
    pub rotation: Quat,
    pub scale: Vec3,
}

/// A rigid pose as the engine takes it: a rotation, then a translation.
#[derive(Clone, Copy, Debug, PartialEq, Eq, Structural)]
pub struct Pose {
    pub rotation: Quat,
    pub translation: Vec3,
}

impl Vec3 {
    /// The vector whose three parts are `v`.
    pub open spec fn splat(v: Real32) -> Vec3 {
        Vec3 { x: v, y: v, z: v }
    }

    /// The vector whose three parts are `1.0`: the scale that changes nothing.
    pub fn ones() -> (r: Vec3)
        ensures
            r == Vec3::splat(Real32::one()),
    {
        let one = Real32::new_one();
        Vec3 { x: one, y: one, z: one }
    }

    /// The vector whose three parts are `0.0`.
    pub fn zeros() -> (r: Vec3)
        ensures
            r == Vec3::splat(Real32::zero()),
    {
        let zero = Real32::new_zero();
        Vec3 { x: zero, y: zero, z: zero }
    }
}

impl Quat {
    /// The quaternion `(0, 0, 0, 1)`.
    pub open spec fn unit() -> Quat {
        Quat { x: Real32::zero(), y: Real32::zero(), z: Real32::zero(), w: Real32::one() }
    }

    /// The rotation that turns nothing: `(0, 0, 0, 1)`.
    pub fn identity() -> (r: Quat)
        ensures
            r == Quat::unit(),
    {
        let zero = Real32::new_zero();
        Quat { x: zero, y: zero, z: zero, w: Real32::new_one() }
    }
}

impl Pose {
    /// No rotation, no translation.
    pub open spec fn origin() -> Pose {
        Pose { rotation: Quat::unit(), translation: Vec3::splat(Real32::zero()) }
    }

    /// The rotation and translation of a transform, without its scale.
    pub open spec fn of(t: Transform) -> Pose {
        Pose { rotation: t.rotation, translation: t.translation }
    }

    /// The pose at the origin with no rotation.
    pub fn identity() -> (r: Pose)
        ensures
            r == Pose::origin(),
    {
        Pose { rotation: Quat::identity(), translation: Vec3::zeros() }
    }

    /// The rigid part of a transform: its rotation and translation.
    pub fn from_transform(t: &Transform) -> (r: Pose)
        ensures
            r == Pose::of(*t),
    {
        Pose { rotation: t.rotation, translation: t.translation }
    }
}

/// Friction and restitution of the material that an entity's body is made of.
#[derive(Clone, Copy, Debug, PartialEq, Eq, Structural)]
pub struct PhysXMaterialDesc {
    pub static_friction: Real32,
    pub dynamic_friction: Real32,
    pub restitution: Real32,
}

/// The collision shape of an entity.
#[derive(Clone, Copy, Debug, PartialEq, Eq, Structural)]
pub enum PhysXColliderDesc {
    /// A sphere of the given radius.
    Sphere(Real32),
    /// A capsule of the given radius and half height.
    Capsule(Real32, Real32),
    /// A box of the given half extents.
    Box(Real32, Real32, Real32),
}

/// The kind of body that an entity asks for.
#[derive(Clone, Copy, Debug, PartialEq, Eq, Structural)]
pub enum PhysXRigidBodyDesc {
    Static,
    Dynamic { density: Real32, angular_damping: Real32 },
}

/// The shape of a capsule character controller.
#[derive(Clone, Copy, Debug, PartialEq, Eq, Structural)]
pub struct PhysXCapsuleControllerDesc {
    pub height: Real32,
    pub radius: Real32,
    pub step_offset: Real32,
}

/// The bit pattern of `1.75`.
pub const DEFAULT_CAPSULE_HEIGHT_BITS: u32 = 0x3FE0_0000;

/// The bit pattern of `0.3`.
pub const DEFAULT_CAPSULE_RADIUS_BITS: u32 = 0x3E99_999A;

/// The bit pattern of `0.4`.
pub const DEFAULT_CAPSULE_STEP_OFFSET_BITS: u32 = 0x3ECC_CCCD;

impl PhysXCapsuleControllerDesc {
    /// A capsule 1.75 high, of radius 0.3, that climbs steps of 0.4.
    pub open spec fn standard() -> PhysXCapsuleControllerDesc {
        PhysXCapsuleControllerDesc {
            height: Real32 { bits: DEFAULT_CAPSULE_HEIGHT_BITS },
            radius: Real32 { bits: DEFAULT_CAPSULE_RADIUS_BITS },
            step_offset: Real32 { bits: DEFAULT_CAPSULE_STEP_OFFSET_BITS },
        }
    }
}

impl Default for PhysXCapsuleControllerDesc {
    fn default() -> (r: PhysXCapsuleControllerDesc)
        ensures
            r == PhysXCapsuleControllerDesc::standard(),
    {
        PhysXCapsuleControllerDesc {
            height: Real32 { bits: DEFAULT_CAPSULE_HEIGHT_BITS },
            radius: Real32 { bits: DEFAULT_CAPSULE_RADIUS_BITS },
            step_offset: Real32 { bits: DEFAULT_CAPSULE_STEP_OFFSET_BITS },
        }
    }
}

/// A material that the engine was asked to create, by its place in the
/// world's registry.
#[derive(Clone, Copy, Debug, PartialEq, Eq, Structural)]
pub struct MaterialHandle {
    pub index: usize,
}

/// A body that the engine was asked to create, by its place in the world's
/// registry. The handle owns nothing: dropping it releases no engine object.
#[derive(Clone, Copy, Debug, PartialEq, Eq, Structural)]
pub struct BodyHandle {
    pub index: usize,
}

/// A character controller that the engine was asked to create, by its place in
/// the world's registry.
#[derive(Clone, Copy, Debug, PartialEq, Eq, Structural)]
pub struct ControllerHandle {
    pub index: usize,
}

/// The component that marks an entity whose static body exists.
#[derive(Clone, Copy, Debug, PartialEq, Eq, Structural)]
pub struct PhysXStaticRigidBodyHandle(pub BodyHandle);

/// The component that marks an entity whose dynamic body exists.
#[derive(Clone, Copy, Debug, PartialEq, Eq, Structural)]
pub struct PhysXDynamicRigidBodyHandle(pub BodyHandle);

/// The component that marks an entity whose character controller exists.
#[derive(Clone, Copy, Debug, PartialEq, Eq, Structural)]
pub struct PhysXController(pub ControllerHandle);

/// What the bridge reads and writes of one host entity. A component that the
/// entity does not carry is `None`.
#[derive(Clone, Copy, Debug, PartialEq, Eq, Structural)]
pub struct Components {
    pub material: Option<PhysXMaterialDesc>,
    pub collider: Option<PhysXColliderDesc>,
    pub rigid_body: Option<PhysXRigidBodyDesc>,
    pub capsule: Option<PhysXCapsuleControllerDesc>,
    pub transform: Option<Transform>,
    pub static_body: Option<PhysXStaticRigidBodyHandle>,
    pub dynamic_body: Option<PhysXDynamicRigidBodyHandle>,
    pub controller: Option<PhysXController>,
}

impl Components {
    /// No component at all.
    pub open spec fn bare() -> Components {
        Components {
            material: None,
            collider: None,
            rigid_body: None,
            capsule: None,
            transform: None,
            static_body: None,
            dynamic_body: None,
            controller: None,
        }
    }

    /// An entity that carries none of the components.
    pub fn empty() -> (r: Components)
        ensures
            r == Components::bare(),
    {
        Components {
            material: None,
            collider: None,
            rigid_body: None,
            capsule: None,
            transform: None,
            static_body: None,
            dynamic_body: None,
            controller: None,
        }
    }
}

} // verus!

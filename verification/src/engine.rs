//! The calls that the bridge decides on and the caller makes on the engine.

use vstd::prelude::*;
use crate::scalar::Real32;
use crate::desc::BodyHandle;
use crate::desc::ControllerHandle;
use crate::desc::MaterialHandle;
use crate::desc::PhysXCapsuleControllerDesc;
use crate::desc::PhysXColliderDesc;
use crate::desc::PhysXMaterialDesc;
use crate::desc::Pose;
use crate::desc::Vec3;

verus! {

/// One call on the engine. The handle in a creating call is the one under
/// which the bridge will refer to the object that the call creates.
#[allow(inconsistent_fields)]
#[derive(Clone, Copy, Debug, PartialEq, Eq, Structural)]
pub enum EngineCall {
    CreateFoundation { version: u32 },
    CreatePhysics { load_extensions: bool },
    CreateScene { controller_manager: bool, controller_locking: bool, dedicated_threads: u32 },
    CreateMaterial { material: MaterialHandle, desc: PhysXMaterialDesc },
    CreateStatic {
        body: BodyHandle,
        pose: Pose,
        geometry: PhysXColliderDesc,
        material: MaterialHandle,
        shape_scale: Vec3,
    },
    CreateDynamic {
        body: BodyHandle,
        pose: Pose,
        geometry: PhysXColliderDesc,
        material: MaterialHandle,
        density: Real32,
        shape_scale: Vec3,
    },
    SetAngularDamping { body: BodyHandle, angular_damping: Real32 },
    AddActor { body: BodyHandle },
    AddDynamic { body: BodyHandle },
    AddCapsuleController {
        controller: ControllerHandle,
        desc: PhysXCapsuleControllerDesc,
        material: MaterialHandle,
    },
    SetControllerPosition { controller: ControllerHandle, position: Vec3 },
    Simulate { dt: Real32 },
    FetchResults { block: bool },
    ReleaseScene,
    ReleasePhysics,
    ReleaseFoundation,
}

/// The engine's number for a release `major.minor.patch`: one byte each, from
/// the top, over a zero byte.
pub open spec fn version_number(major: u32, minor: u32, patch: u32) -> int {
    major * 0x100_0000 + minor * 0x1_0000 + patch * 0x100
}

/// Packs a release into the engine's version number.
pub fn version(major: u32, minor: u32, patch: u32) -> (v: u32)
    requires
        major < 256,
        minor < 256,
        patch < 256,
    ensures
        v == version_number(major, minor, patch),
{
    major * 0x100_0000 + minor * 0x1_0000 + patch * 0x100
}

/// The engine release that the bridge is written against: 4.1.1.
pub const PX_PHYSICS_VERSION: u32 = 0x0401_0100;

/// `PX_PHYSICS_VERSION` is the number of release 4.1.1.
pub proof fn lemma_physics_version()
    ensures
        PX_PHYSICS_VERSION == version_number(4, 1, 1),
{
}

} // verus!

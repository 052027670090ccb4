//! A bridge between a host scene of entities and a native rigid-body engine.
//!
//! The host attaches declarative descriptors to its entities. The systems of
//! this crate turn each complete descriptor set into engine objects exactly
//! once, replace the descriptors by a handle, decide when the engine steps, and
//! carry the engine's poses back into the transforms of dynamic entities.
//! The engine itself is driven by the caller: every system records the engine
//! calls it decides on, in order, and the caller performs them.

pub mod scalar;
pub mod desc;
pub mod engine;
pub mod world;
pub mod systems;
pub mod plugin;
pub mod laws;

pub use crate::desc::PhysXCapsuleControllerDesc;
pub use crate::desc::PhysXColliderDesc;
pub use crate::desc::PhysXController;
pub use crate::desc::PhysXDynamicRigidBodyHandle;
pub use crate::desc::PhysXMaterialDesc;
pub use crate::desc::PhysXRigidBodyDesc;
pub use crate::desc::PhysXStaticRigidBodyHandle;
pub use crate::plugin::PhysXPlugin;
pub use crate::world::PhysX;

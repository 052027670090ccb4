//! Where the systems of the bridge stand in the host's frame.

use vstd::prelude::*;

verus! {

/// The stages of a frame that the bridge uses, in the order in which the host
/// runs them.
#[derive(Clone, Copy, Debug, PartialEq, Eq, Structural)]
pub enum CoreStage {
    PreUpdate,
    Update,
    PostUpdate,
}

/// The systems of the bridge.
#[derive(Clone, Copy, Debug, PartialEq, Eq, Structural)]
pub enum BridgeSystem {
    CreateCharacterController,
    CreateBodyMaterialCollider,
    StepSimulation,
    SyncTransforms,
}

/// One system and the stage that it runs in.
#[derive(Clone, Copy, Debug, PartialEq, Eq, Structural)]
pub struct Registration {
    pub stage: CoreStage,
    pub system: BridgeSystem,
}

/// The place of a stage in the frame.
pub open spec fn stage_rank(stage: CoreStage) -> nat {
    match stage {
        CoreStage::PreUpdate => 0,
        CoreStage::Update => 1,
        CoreStage::PostUpdate => 2,
    }
}

/// The frame of the bridge: controllers are materialized first, then the
/// other bodies, both before the update; the scene steps in the update; poses
/// come back after it.
pub open spec fn frame_plan() -> Seq<Registration> {
    seq![
        Registration {
            stage: CoreStage::PreUpdate,
            system: BridgeSystem::CreateCharacterController,
        },
        Registration {
            stage: CoreStage::PreUpdate,
            system: BridgeSystem::CreateBodyMaterialCollider,
        },
        Registration { stage: CoreStage::Update, system: BridgeSystem::StepSimulation },
        Registration { stage: CoreStage::PostUpdate, system: BridgeSystem::SyncTransforms },
    ]
}

/// The plugin that puts the bridge into a host application.
#[derive(Clone, Copy, Debug)]
pub struct PhysXPlugin;

impl PhysXPlugin {
    /// The systems to register, in the order in which they must run.
    pub fn build(&self) -> (plan: Vec<Registration>)
        ensures
            plan@ == frame_plan(),
    {
        let mut plan: Vec<Registration> = Vec::new();
        plan.push(
            Registration {
                stage: CoreStage::PreUpdate,
                system: BridgeSystem::CreateCharacterController,
            },
        );
        plan.push(
            Registration {
                stage: CoreStage::PreUpdate,
                system: BridgeSystem::CreateBodyMaterialCollider,
            },
        );
        plan.push(Registration { stage: CoreStage::Update, system: BridgeSystem::StepSimulation });
        plan.push(
            Registration { stage: CoreStage::PostUpdate, system: BridgeSystem::SyncTransforms },
        );
        assert(plan@ =~= frame_plan());
        plan
    }
}

/// The frame never goes back a stage, names each system once, and runs the
/// controller pass directly before the actor pass, in one stage.
pub proof fn lemma_frame_plan_ordered()
    ensures
        forall|i: int, j: int|
            0 <= i <= j < frame_plan().len() ==> stage_rank(#[trigger] frame_plan()[i].stage)
                <= stage_rank(#[trigger] frame_plan()[j].stage),
        forall|i: int, j: int|
            0 <= i < j < frame_plan().len() ==> (#[trigger] frame_plan()[i]).system
                != (#[trigger] frame_plan()[j]).system,
        frame_plan()[0].system == BridgeSystem::CreateCharacterController,
        frame_plan()[1].system == BridgeSystem::CreateBodyMaterialCollider,
        frame_plan()[0].stage == frame_plan()[1].stage,
{
}

} // verus!

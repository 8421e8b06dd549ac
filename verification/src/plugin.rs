//! What the plugin asks of the host application.

use vstd::prelude::*;

verus! {

/// The two systems of this library.
#[derive(Clone, Copy, Debug, PartialEq, Eq, Structural)]
pub enum System {
    /// The transform composer.
    ComputeTransform,
    /// The sprite extractor.
    ExtractIndependentSprites,
}

/// Where a system runs.
#[derive(Clone, Copy, Debug, PartialEq, Eq, Structural)]
pub enum Stage {
    /// The post-update stage of the application.
    PostUpdate,
    /// The extract stage of the render application.
    RenderExtract,
}

/// The system of the engine that a system of ours waits for.
#[derive(Clone, Copy, Debug, PartialEq, Eq, Structural)]
pub enum Predecessor {
    /// The propagation of transforms through the scene graph.
    TransformPropagate,
    /// The extraction of the engine's own sprites.
    ExtractSprites,
}

/// The component types of this library that the host's reflection is told of.
#[derive(Clone, Copy, Debug, PartialEq, Eq, Structural)]
pub enum ComponentType {
    IndependentSprite,
    IndependentTextureAtlasSprite,
    IndependentTransform,
    ComputedTransform,
}

/// One system to add to the host, with its stage and the system it follows.
#[derive(Clone, Copy, Debug, PartialEq, Eq, Structural)]
pub struct Scheduled {
    pub system: System,
    pub stage: Stage,
    pub after: Predecessor,
}

/// What the plugin asks of the host: the types to register, then the systems
/// to add.
#[derive(Clone, Debug, PartialEq, Eq)]
pub struct Plan {
    pub types: Vec<ComponentType>,
    pub systems: Vec<Scheduled>,
}

/// Registers the component types, installs the composer and, where the host
/// renders, the extractor.
#[derive(Clone, Copy, Debug, Default)]
pub struct IndependentSpritePlugin;

impl IndependentSpritePlugin {
    /// The four component types, which are registered whether or not the host
    /// renders.
    pub open spec fn components() -> Seq<ComponentType> {
        seq![
            ComponentType::IndependentSprite,
            ComponentType::IndependentTextureAtlasSprite,
            ComponentType::IndependentTransform,
            ComponentType::ComputedTransform,
        ]
    }

    /// The composer, which runs after the world transforms are propagated.
    pub open spec fn composer() -> Scheduled {
        Scheduled {
            system: System::ComputeTransform,
            stage: Stage::PostUpdate,
            after: Predecessor::TransformPropagate,
        }
    }

    /// The extractor, which runs after the engine's own sprites are
    /// extracted.
    pub open spec fn extractor() -> Scheduled {
        Scheduled {
            system: System::ExtractIndependentSprites,
            stage: Stage::RenderExtract,
            after: Predecessor::ExtractSprites,
        }
    }

    /// The systems to add: the composer always, the extractor only where the
    /// host has a render application.
    pub open spec fn systems(render_app: bool) -> Seq<Scheduled> {
        if render_app {
            seq![Self::composer(), Self::extractor()]
        } else {
            seq![Self::composer()]
        }
    }

    /// Says what the host is to do, given whether it has a render
    /// application: register the four component types, add the composer,
    /// and add the extractor where there is a render application.
    pub fn build(&self, render_app: bool) -> (plan: Plan)
        ensures
            plan.types@ == Self::components(),
            plan.systems@ == Self::systems(render_app),
    {
        let mut types = Vec::new();
        types.push(ComponentType::IndependentSprite);
        types.push(ComponentType::IndependentTextureAtlasSprite);
        types.push(ComponentType::IndependentTransform);
        types.push(ComponentType::ComputedTransform);
        let mut systems = Vec::new();
        systems.push(
            Scheduled {
                system: System::ComputeTransform,
                stage: Stage::PostUpdate,
                after: Predecessor::TransformPropagate,
            },
        );
        if render_app {
            systems.push(
                Scheduled {
                    system: System::ExtractIndependentSprites,
                    stage: Stage::RenderExtract,
                    after: Predecessor::ExtractSprites,
                },
            );
        }
        assert(types@ =~= Self::components());
        assert(systems@ =~= Self::systems(render_app));
        Plan { types, systems }
    }
}

} // verus!

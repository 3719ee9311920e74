//! Device lifecycle and per-frame data handoff for a renderer that lives beside
//! a simulation: fault capture, the error policy, the lifecycle state machine,
//! the single-shot resource slot and the extraction handoff.

pub mod error_handler;
pub mod extract_plugin;
pub mod lifecycle;
pub mod render_resource;
pub mod renderer;
pub mod settings;

use vstd::prelude::*;
use crate::renderer::{resources_ready, SlotProbe};
use crate::settings::RenderCreation;

verus! {

/// Sets up the renderer: how to create its device, and how to compile pipelines.
#[derive(Clone, Copy, Debug)]
pub struct RenderPlugin {
    pub render_creation: RenderCreation,
    /// If `true`, disables asynchronous pipeline compilation.
    pub synchronous_pipeline_compilation: bool,
}

impl Default for RenderPlugin {
    fn default() -> (r: Self)
        ensures
            r.render_creation.backends == crate::settings::BackendSelection::PlatformDefault,
            r.render_creation.power_preference == crate::settings::PowerPreference::HighPerformance,
            r.render_creation.features == 0,
            r.render_creation.web_features == 0,
            !r.synchronous_pipeline_compilation,
    {
        RenderPlugin {
            render_creation: RenderCreation::default(),
            synchronous_pipeline_compilation: false,
        }
    }
}

impl RenderPlugin {
    /// Whether setup may finish, given what a look at the resource slot found.
    pub fn ready(&self, probe: SlotProbe) -> (r: bool)
        ensures
            r == (probe == SlotProbe::Absent || probe == SlotProbe::Locked { populated: true }),
    {
        resources_ready(probe)
    }
}

/// The system sets of the render schedule.
#[derive(Clone, Copy, Debug, PartialEq, Eq, Structural, Hash)]
pub enum RenderSystems {
    /// Applies the commands of the extract schedule.
    ExtractCommands,
    /// Prepares assets created, modified or removed this frame.
    PrepareAssets,
    PrepareMeshes,
    /// Creates additional views, such as those for shadow mapping.
    CreateViews,
    Specialize,
    PrepareViews,
    /// Queues drawable entities as phase items.
    Queue,
    QueueMeshes,
    QueueSweep,
    PhaseSort,
    /// Prepares GPU resources from extracted data in their sorted order.
    Prepare,
    PrepareResources,
    PrepareResourcesBatchPhases,
    PrepareResourcesCollectPhaseBuffers,
    PrepareResourcesFlush,
    PrepareBindGroups,
    /// Actual rendering happens here.
    Render,
    Cleanup,
    /// Final cleanup: temporary render entities are despawned.
    PostCleanup,
}

/// A run of system sets configured to run one after the other, all nested in
/// `parent` where there is one.
pub struct SetChain {
    pub sets: Vec<RenderSystems>,
    pub parent: Option<RenderSystems>,
}

/// The main render schedule.
#[derive(Clone, Copy, Debug, PartialEq, Eq, Hash, Default)]
pub struct Render;

/// The startup schedule of the render app. It runs every time a render device
/// is acquired, and not always on a fresh render store.
#[derive(Clone, Copy, Debug, PartialEq, Eq, Hash, Default)]
pub struct RenderStartup;

/// The label of the rendering sub-app.
#[derive(Clone, Copy, Debug, PartialEq, Eq, Hash, Default)]
pub struct RenderApp;

pub open spec fn frame_chain() -> Seq<RenderSystems> {
    seq![
        RenderSystems::ExtractCommands,
        RenderSystems::PrepareMeshes,
        RenderSystems::CreateViews,
        RenderSystems::Specialize,
        RenderSystems::PrepareViews,
        RenderSystems::Queue,
        RenderSystems::PhaseSort,
        RenderSystems::Prepare,
        RenderSystems::Render,
        RenderSystems::Cleanup,
        RenderSystems::PostCleanup,
    ]
}

pub open spec fn asset_chain() -> Seq<RenderSystems> {
    seq![
        RenderSystems::ExtractCommands,
        RenderSystems::PrepareAssets,
        RenderSystems::PrepareMeshes,
        RenderSystems::Prepare,
    ]
}

pub open spec fn prepare_chain() -> Seq<RenderSystems> {
    seq![
        RenderSystems::PrepareResources,
        RenderSystems::PrepareResourcesBatchPhases,
        RenderSystems::PrepareResourcesCollectPhaseBuffers,
        RenderSystems::PrepareResourcesFlush,
        RenderSystems::PrepareBindGroups,
    ]
}

fn push_all(v: &mut Vec<RenderSystems>, sets: &[RenderSystems])
    ensures
        final(v)@ == old(v)@ + sets@,
{
    let mut i: usize = 0;
    while i < sets.len()
        invariant
            i <= sets@.len(),
            v@ == old(v)@ + sets@.subrange(0, i as int),
        decreases sets@.len() - i,
    {
        v.push(sets[i]);
        i = i + 1;
        assert(sets@.subrange(0, i as int) =~= sets@.subrange(0, (i - 1) as int).push(sets@[i - 1]));
    }
    assert(sets@.subrange(0, sets@.len() as int) =~= sets@);
}

impl Render {
    /// The order of the render schedule's sets: the chains run in order, and
    /// the sets of the last one are nested in `Prepare`.
    pub fn base_layout() -> (r: Vec<SetChain>)
        ensures
            r@.len() == 3,
            r@[0].sets@ == frame_chain(),
            r@[0].parent is None,
            r@[1].sets@ == asset_chain(),
            r@[1].parent is None,
            r@[2].sets@ == prepare_chain(),
            r@[2].parent == Some(RenderSystems::Prepare),
    {
        let mut frame: Vec<RenderSystems> = Vec::new();
        push_all(&mut frame, &[
            RenderSystems::ExtractCommands,
            RenderSystems::PrepareMeshes,
            RenderSystems::CreateViews,
            RenderSystems::Specialize,
            RenderSystems::PrepareViews,
            RenderSystems::Queue,
            RenderSystems::PhaseSort,
            RenderSystems::Prepare,
            RenderSystems::Render,
            RenderSystems::Cleanup,
            RenderSystems::PostCleanup,
        ]);
        let mut assets: Vec<RenderSystems> = Vec::new();
        push_all(&mut assets, &[
            RenderSystems::ExtractCommands,
            RenderSystems::PrepareAssets,
            RenderSystems::PrepareMeshes,
            RenderSystems::Prepare,
        ]);
        let mut prepare: Vec<RenderSystems> = Vec::new();
        push_all(&mut prepare, &[
            RenderSystems::PrepareResources,
            RenderSystems::PrepareResourcesBatchPhases,
            RenderSystems::PrepareResourcesCollectPhaseBuffers,
            RenderSystems::PrepareResourcesFlush,
            RenderSystems::PrepareBindGroups,
        ]);
        proof {
            assert(frame@ =~= frame_chain());
            assert(assets@ =~= asset_chain());
            assert(prepare@ =~= prepare_chain());
        }
        let mut r: Vec<SetChain> = Vec::new();
        r.push(SetChain { sets: frame, parent: None });
        r.push(SetChain { sets: assets, parent: None });
        r.push(SetChain { sets: prepare, parent: Some(RenderSystems::Prepare) });
        r
    }

    /// The sets whose systems may run in any order among themselves.
    pub fn ambiguous_sets() -> (r: Vec<RenderSystems>)
        ensures
            r@ == seq![RenderSystems::Specialize],
    {
        let mut r: Vec<RenderSystems> = Vec::new();
        r.push(RenderSystems::Specialize);
        r
    }
}

} // verus!

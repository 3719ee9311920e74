use robin_render::extract_plugin::{lend_main_world, reclaim_main_world};
use robin_render::renderer::{resources_ready, ResourceSlot, SlotProbe};
use robin_render::render_resource::PipelineCache;
use robin_render::settings::{BackendSelection, PowerPreference, RenderCreation};
use robin_render::{Render, RenderPlugin, RenderSystems};

#[test]
fn extraction_round_trip_keeps_the_main_world() {
    let mut main: Vec<u32> = vec![1, 2, 3];
    let scratch: Vec<u32> = Vec::new();
    let lent = lend_main_world(&mut main, scratch);
    assert!(main.is_empty());
    assert_eq!(lent, vec![1, 2, 3]);
    let scratch = reclaim_main_world(&mut main, lent);
    assert_eq!(main, vec![1, 2, 3]);
    assert!(scratch.is_empty());
}

#[test]
fn placeholder_is_reused_across_frames() {
    let mut main = String::from("simulation");
    let mut scratch = String::from("placeholder");
    for _ in 0..3 {
        let lent = lend_main_world(&mut main, scratch);
        assert_eq!(main, "placeholder");
        scratch = reclaim_main_world(&mut main, lent);
        assert_eq!(main, "simulation");
        assert_eq!(scratch, "placeholder");
    }
}

#[test]
fn readiness_of_each_probe() {
    assert!(resources_ready(SlotProbe::Absent));
    assert!(!resources_ready(SlotProbe::Busy));
    assert!(!resources_ready(SlotProbe::Locked { populated: false }));
    assert!(resources_ready(SlotProbe::Locked { populated: true }));
    let plugin = RenderPlugin::default();
    assert!(!plugin.ready(SlotProbe::Busy));
    assert!(plugin.ready(SlotProbe::Locked { populated: true }));
}

#[test]
fn slot_is_taken_once() {
    let mut slot: ResourceSlot<&str> = ResourceSlot::new();
    assert!(!slot.is_populated());
    assert_eq!(slot.take(), None);
    assert!(slot.can_populate());
    slot.populate("device");
    assert!(!slot.can_populate());
    assert_eq!(slot.take(), Some("device"));
    assert_eq!(slot.take(), None);
    assert!(!slot.can_populate());
}

#[test]
fn defaults() {
    let plugin = RenderPlugin::default();
    assert!(!plugin.synchronous_pipeline_compilation);
    assert_eq!(plugin.render_creation.backends, BackendSelection::PlatformDefault);
    assert_eq!(plugin.render_creation.power_preference, PowerPreference::HighPerformance);
    assert_eq!(plugin.render_creation.features, 0);
    assert!(plugin.render_creation.can_begin());
    let off = RenderCreation { backends: BackendSelection::Disabled, ..RenderCreation::default() };
    assert!(!off.can_begin());
}

#[test]
fn pipeline_cache_keeps_its_setting() {
    assert!(PipelineCache::new(true).is_synchronous());
    assert!(!PipelineCache::new(false).is_synchronous());
}

#[test]
fn base_layout_orders_the_sets() {
    let layout = Render::base_layout();
    assert_eq!(layout.len(), 3);
    assert_eq!(layout[0].sets.len(), 11);
    assert_eq!(layout[0].sets[0], RenderSystems::ExtractCommands);
    assert_eq!(layout[0].sets[10], RenderSystems::PostCleanup);
    assert!(layout[0].parent.is_none());
    assert_eq!(
        layout[1].sets,
        vec![
            RenderSystems::ExtractCommands,
            RenderSystems::PrepareAssets,
            RenderSystems::PrepareMeshes,
            RenderSystems::Prepare
        ]
    );
    assert_eq!(layout[2].parent, Some(RenderSystems::Prepare));
    assert_eq!(layout[2].sets[4], RenderSystems::PrepareBindGroups);
    assert_eq!(Render::ambiguous_sets(), vec![RenderSystems::Specialize]);
}

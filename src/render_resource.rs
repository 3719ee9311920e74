use vstd::prelude::*;

verus! {

/// The pipeline cache's settings that the lifecycle needs when it installs
/// new resources.
#[derive(Clone, Copy, Debug, PartialEq, Eq, Structural)]
pub struct PipelineCache {
    synchronous_pipeline_compilation: bool,
}

impl PipelineCache {
    /// A pipeline cache for a newly acquired device.
    pub fn new(synchronous_pipeline_compilation: bool) -> (r: Self)
        ensures
            r.synchronous_pipeline_compilation() == synchronous_pipeline_compilation,
    {
        PipelineCache { synchronous_pipeline_compilation }
    }

    pub closed spec fn synchronous_pipeline_compilation(&self) -> bool {
        self.synchronous_pipeline_compilation
    }

    /// Whether pipelines are compiled on the calling thread.
    pub fn is_synchronous(&self) -> (r: bool)
        ensures
            r == self.synchronous_pipeline_compilation(),
    {
        self.synchronous_pipeline_compilation
    }
}

} // verus!

use vstd::prelude::*;

verus! {

/// The pipeline stage a shader runs at.
#[derive(Debug, Clone, Copy, PartialEq, Eq, Structural)]
pub enum ShaderStageKind {
    Vertex,
    Fragment,
    Compute,
    Raygen,
    AnyHit,
    ClosestHit,
    Miss,
    Intersection,
    Callable,
}

/// One shader entry point: the module it lives in (by its native handle),
/// the stage it runs at and the name of its entry point.
pub struct ShaderStage {
    pub module: u64,
    pub stage: ShaderStageKind,
    pub entry_point: String,
}

impl Clone for ShaderStage {
    fn clone(&self) -> (r: Self)
        ensures
            r == *self,
    {
        ShaderStage { module: self.module, stage: self.stage, entry_point: self.entry_point.clone() }
    }
}

impl ShaderStage {
    pub fn new(module: u64, stage: ShaderStageKind, entry_point: &str) -> (r: Self)
        ensures
            r.module == module,
            r.stage == stage,
            r.entry_point@ == entry_point@,
    {
        ShaderStage { module, stage, entry_point: entry_point.to_owned() }
    }
}

} // verus!

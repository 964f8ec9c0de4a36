use vstd::prelude::*;

verus! {

/// The ray-tracing limits that a physical device reports.
#[derive(Debug, Clone, Copy, PartialEq, Eq, Structural)]
pub struct PhysicalDeviceRayTracingPipelineProperties {
    pub shader_group_handle_size: u32,
    pub max_ray_recursion_depth: u32,
    pub max_shader_group_stride: u32,
    pub shader_group_base_alignment: u32,
    pub max_ray_dispatch_invocation_count: u32,
    pub shader_group_handle_alignment: u32,
    pub max_ray_hit_attribute_size: u32,
}

impl PhysicalDeviceRayTracingPipelineProperties {
    /// Limits from which a shader binding table can be laid out: a driver
    /// always reports a non-zero handle size and base alignment.
    pub open spec fn usable_for_binding_tables(&self) -> bool {
        &&& self.shader_group_handle_size > 0
        &&& self.shader_group_base_alignment > 0
    }
}

} // verus!

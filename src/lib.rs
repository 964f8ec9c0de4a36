//! Host-side logic of a GPU ray-tracing pipeline: geometry descriptors, the
//! acceleration-structure build protocol, shader group tables and the layout
//! of shader binding tables, all stated over plain values. The native calls
//! that carry out each step are left to the caller.

pub mod accel;
pub mod command_buffer;
pub mod descriptor;
pub mod device;
pub mod error;
pub mod geometry;
pub mod hit_group;
pub mod instance;
pub mod name;
pub mod physical_device;
pub mod pipeline;
pub mod queue_family;
pub mod sbt;
pub mod shader_stage;

pub use accel::{
    AccelerationStructure, AccelerationStructureBuild, AccelerationStructureKind, BottomAccelerationStructure,
    BuildAction, BuildEvent, BuildPhase, BuildSizes, BuildState,
};
pub use command_buffer::CommandBufferResource;
pub use descriptor::Descriptor;
pub use device::DeviceFeatures;
pub use error::{RtError, ValidationError};
pub use geometry::{
    AABBGeometry, BufferView, BuildRangeInfo, GeometryRecord, IndexBufferView, IndexType, TriangleGeometry,
    VertexBufferView,
};
pub use hit_group::{HitGroup, ProceduralHitGroup, ShaderGroupType, TrianglesHitGroup};
pub use instance::{BLASInstance, InstanceGeometry, InstanceRecord, TopAccelerationStructure};
pub use physical_device::PhysicalDeviceRayTracingPipelineProperties;
pub use pipeline::{PipelineGroupTable, RayTracingPipeline, ShaderGroup};
pub use queue_family::QueueFamilyProperties;
pub use sbt::{PipelineShaderBindingTables, ShaderBindingTable, ShaderBindingTableLayout, StridedRegion};
pub use shader_stage::{ShaderStage, ShaderStageKind};

use vstd::prelude::*;

use crate::error::{RtError, ValidationError};

verus! {

/// Width of the indices of a triangle mesh.
#[derive(Debug, Clone, Copy, PartialEq, Eq, Structural)]
pub enum IndexType {
    Uint16,
    Uint32,
}

/// A range of a device buffer: the buffer's device address and an offset
/// into it.
#[derive(Debug, Clone, Copy, PartialEq, Eq, Structural)]
pub struct BufferView {
    pub device_address: u64,
    pub offset: u64,
}

impl BufferView {
    pub open spec fn wf(&self) -> bool {
        self.device_address + self.offset <= u64::MAX
    }

    pub open spec fn spec_address(&self) -> u64 {
        (self.device_address + self.offset) as u64
    }

    /// The device address where the view starts.
    pub fn address(&self) -> (r: u64)
        requires
            self.wf(),
        ensures
            r == self.spec_address(),
    {
        self.device_address + self.offset
    }
}

#[derive(Debug, Clone, Copy, PartialEq, Eq, Structural)]
pub struct IndexBufferView {
    pub buffer_view: BufferView,
    pub index_type: IndexType,
    pub count: u32,
}

/// Vertex positions: `count` vertices of the native format `format`, one
/// every `stride` bytes.
#[derive(Debug, Clone, Copy, PartialEq, Eq, Structural)]
pub struct VertexBufferView {
    pub buffer_view: BufferView,
    pub format: i32,
    pub stride: u64,
    pub count: u32,
}

/// The range of primitives that a build reads from one geometry.
#[derive(Debug, Clone, Copy, PartialEq, Eq, Structural)]
pub struct BuildRangeInfo {
    pub primitive_count: u32,
    pub primitive_offset: u32,
    pub first_vertex: u32,
    pub transform_offset: u32,
}

pub open spec fn range_of(primitive_count: u32) -> BuildRangeInfo {
    BuildRangeInfo { primitive_count, primitive_offset: 0, first_vertex: 0, transform_offset: 0 }
}

/// Byte stride of one axis-aligned box: six 32-bit bounds and padding.
pub const AABB_STRIDE: u64 = 16;

/// The generic geometry record that an acceleration-structure build reads.
/// Every geometry is built opaque, with at most one any-hit invocation per
/// primitive.
#[derive(Debug, Clone, Copy, PartialEq, Eq, Structural)]
pub enum GeometryRecord {
    Triangles {
        index_type: IndexType,
        index_address: u64,
        vertex_address: u64,
        vertex_format: i32,
        vertex_stride: u64,
        max_vertex: u32,
        transform_address: Option<u64>,
    },
    Aabbs { data_address: u64, stride: u64 },
    Instances { array_of_pointers: bool, data_address: u64 },
}

/// A triangle mesh, described for an acceleration-structure build.
#[derive(Debug, Clone, Copy, PartialEq, Eq, Structural)]
pub struct TriangleGeometry {
    pub geometry: GeometryRecord,
    pub index_buffer_view: IndexBufferView,
    pub vertex_buffer_view: VertexBufferView,
    pub transform_buffer_view: Option<BufferView>,
    pub vertex_count: u32,
    pub triangle_count: u32,
    pub build_range_info: BuildRangeInfo,
}

impl TriangleGeometry {
    pub open spec fn wf(&self) -> bool {
        &&& self.index_buffer_view.count % 3 == 0
        &&& self.triangle_count == self.index_buffer_view.count / 3
        &&& self.build_range_info == range_of(self.triangle_count)
    }

    /// Describes the triangles of `index_buffer_view` over the vertices of
    /// `vertex_buffer_view`, with an optional 3x4 transform read from
    /// `transform_buffer_view`. Fails with `InvalidIndexCount` when the index
    /// count is not a multiple of three.
    pub fn new(
        index_buffer_view: &IndexBufferView,
        vertex_buffer_view: &VertexBufferView,
        transform_buffer_view: Option<&BufferView>,
    ) -> (r: Result<Self, RtError>)
        requires
            index_buffer_view.buffer_view.wf(),
            vertex_buffer_view.buffer_view.wf(),
            transform_buffer_view matches Some(v) ==> v.wf(),
        ensures
            (r is Ok) <==> index_buffer_view.count % 3 == 0,
            r is Err ==> r == Err::<Self, RtError>(RtError::Validation(ValidationError::InvalidIndexCount)),
            r matches Ok(t) ==> {
                &&& t.wf()
                &&& t.triangle_count == index_buffer_view.count / 3
                &&& t.vertex_count == vertex_buffer_view.count
                &&& t.index_buffer_view == *index_buffer_view
                &&& t.vertex_buffer_view == *vertex_buffer_view
                &&& t.transform_buffer_view == match transform_buffer_view {
                    Some(v) => Some(*v),
                    None => None::<BufferView>,
                }
                &&& t.geometry == GeometryRecord::Triangles {
                    index_type: index_buffer_view.index_type,
                    index_address: index_buffer_view.buffer_view.spec_address(),
                    vertex_address: vertex_buffer_view.buffer_view.spec_address(),
                    vertex_format: vertex_buffer_view.format,
                    vertex_stride: vertex_buffer_view.stride,
                    max_vertex: vertex_buffer_view.count,
                    transform_address: match transform_buffer_view {
                        Some(v) => Some(v.spec_address()),
                        None => None::<u64>,
                    },
                }
            },
    {
        if index_buffer_view.count % 3 != 0 {
            return Err(RtError::Validation(ValidationError::InvalidIndexCount));
        }
        let transform = match transform_buffer_view {
            Some(v) => Some(*v),
            None => None,
        };
        let transform_address = match transform_buffer_view {
            Some(v) => Some(v.address()),
            None => None,
        };
        let geometry = GeometryRecord::Triangles {
            index_type: index_buffer_view.index_type,
            index_address: index_buffer_view.buffer_view.address(),
            vertex_address: vertex_buffer_view.buffer_view.address(),
            vertex_format: vertex_buffer_view.format,
            vertex_stride: vertex_buffer_view.stride,
            max_vertex: vertex_buffer_view.count,
            transform_address,
        };
        let triangle_count = index_buffer_view.count / 3;
        Ok(TriangleGeometry {
            geometry,
            index_buffer_view: *index_buffer_view,
            vertex_buffer_view: *vertex_buffer_view,
            transform_buffer_view: transform,
            vertex_count: vertex_buffer_view.count,
            triangle_count,
            build_range_info: BuildRangeInfo {
                primitive_count: triangle_count,
                primitive_offset: 0,
                first_vertex: 0,
                transform_offset: 0,
            },
        })
    }

    pub fn geometry(&self) -> (r: GeometryRecord)
        ensures
            r == self.geometry,
    {
        self.geometry
    }

    pub fn build_range_info(&self) -> (r: BuildRangeInfo)
        ensures
            r == self.build_range_info,
    {
        self.build_range_info
    }

    pub fn primitives_count(&self) -> (r: u32)
        ensures
            r == self.triangle_count,
    {
        self.triangle_count
    }

    pub fn index_buffer_view(&self) -> (r: &IndexBufferView)
        ensures
            *r == self.index_buffer_view,
    {
        &self.index_buffer_view
    }

    pub fn vertex_buffer_view(&self) -> (r: &VertexBufferView)
        ensures
            *r == self.vertex_buffer_view,
    {
        &self.vertex_buffer_view
    }
}

/// Every triangle geometry has an index count that is a multiple of three
/// and one triangle per three indices.
pub proof fn lemma_triangle_counts(t: TriangleGeometry)
    requires
        t.wf(),
    ensures
        t.index_buffer_view.count % 3 == 0,
        t.triangle_count == t.index_buffer_view.count / 3,
        t.build_range_info.primitive_count == t.triangle_count,
{
}

/// A set of axis-aligned boxes, described for an acceleration-structure
/// build.
#[derive(Debug, Clone, Copy, PartialEq, Eq, Structural)]
pub struct AABBGeometry {
    pub geometry: GeometryRecord,
    pub build_range_info: BuildRangeInfo,
}

impl AABBGeometry {
    /// Describes `count` boxes laid out every 16 bytes from the start of
    /// the buffer of `positions_buffer_view`.
    pub fn new(positions_buffer_view: BufferView, count: u32) -> (r: Self)
        ensures
            r.geometry == (GeometryRecord::Aabbs { data_address: positions_buffer_view.device_address, stride: AABB_STRIDE }),
            r.build_range_info == range_of(count),
    {
        AABBGeometry {
            geometry: GeometryRecord::Aabbs { data_address: positions_buffer_view.device_address, stride: AABB_STRIDE },
            build_range_info: BuildRangeInfo {
                primitive_count: count,
                primitive_offset: 0,
                first_vertex: 0,
                transform_offset: 0,
            },
        }
    }

    pub fn geometry(&self) -> (r: GeometryRecord)
        ensures
            r == self.geometry,
    {
        self.geometry
    }

    pub fn build_range_info(&self) -> (r: BuildRangeInfo)
        ensures
            r == self.build_range_info,
    {
        self.build_range_info
    }

    pub fn primitives_count(&self) -> (r: u32)
        ensures
            r == self.build_range_info.primitive_count,
    {
        self.build_range_info.primitive_count
    }
}

} // verus!

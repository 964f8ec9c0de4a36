use rtcore::accel::{BuildEvent, BuildPhase};
use rtcore::instance::transform_from_columns;
use rtcore::{
    AABBGeometry, AccelerationStructureBuild, AccelerationStructureKind, BLASInstance, BottomAccelerationStructure,
    BufferView, BuildAction, BuildRangeInfo, BuildSizes, GeometryRecord, IndexBufferView, IndexType,
    InstanceGeometry, RtError, TopAccelerationStructure, TriangleGeometry, ValidationError, VertexBufferView,
};

const R32G32B32_SFLOAT: i32 = 106;

fn views(index_count: u32) -> (IndexBufferView, VertexBufferView) {
    let index = IndexBufferView {
        buffer_view: BufferView { device_address: 0x1000, offset: 0 },
        index_type: IndexType::Uint16,
        count: index_count,
    };
    let vertex = VertexBufferView {
        buffer_view: BufferView { device_address: 0x2000, offset: 0x10 },
        format: R32G32B32_SFLOAT,
        stride: 12,
        count: 3,
    };
    (index, vertex)
}

/// Drives a build to its end with the given driver answers.
fn run_build(build: &mut AccelerationStructureBuild, size: u64, handle: u64, address: u64) -> Vec<BuildAction> {
    let mut actions = Vec::new();
    actions.push(build.step(BuildEvent::SizesQueried(BuildSizes {
        acceleration_structure_size: size,
        build_scratch_size: 256,
    })));
    actions.push(build.step(BuildEvent::StructureCreated { handle }));
    actions.push(build.step(BuildEvent::ScratchAllocated { device_address: 0x9000 }));
    actions.push(build.step(BuildEvent::Completed));
    actions.push(build.step(BuildEvent::AddressResolved { device_address: address }));
    actions
}

fn identity() -> [u32; 16] {
    let one = 1.0f32.to_bits();
    [one, 0, 0, 0, 0, one, 0, 0, 0, 0, one, 0, 0, 0, 0, one]
}

#[test]
fn triangle_count_is_index_count_over_three() {
    let (index, vertex) = views(12);
    let t = TriangleGeometry::new(&index, &vertex, None).unwrap();
    assert_eq!(t.primitives_count(), 4);
    assert_eq!(t.triangle_count, 4);
    assert_eq!(t.vertex_count, 3);
    assert_eq!(
        t.build_range_info(),
        BuildRangeInfo { primitive_count: 4, primitive_offset: 0, first_vertex: 0, transform_offset: 0 }
    );
    assert_eq!(
        t.geometry(),
        GeometryRecord::Triangles {
            index_type: IndexType::Uint16,
            index_address: 0x1000,
            vertex_address: 0x2010,
            vertex_format: R32G32B32_SFLOAT,
            vertex_stride: 12,
            max_vertex: 3,
            transform_address: None,
        }
    );
}

#[test]
fn index_count_not_multiple_of_three_is_rejected() {
    let (index, vertex) = views(4);
    let r = TriangleGeometry::new(&index, &vertex, None);
    assert!(matches!(r, Err(RtError::Validation(ValidationError::InvalidIndexCount))));
}

#[test]
fn transform_view_address_includes_offset() {
    let (index, vertex) = views(3);
    let transform = BufferView { device_address: 0x3000, offset: 0x30 };
    let t = TriangleGeometry::new(&index, &vertex, Some(&transform)).unwrap();
    match t.geometry() {
        GeometryRecord::Triangles { transform_address, .. } => assert_eq!(transform_address, Some(0x3030)),
        _ => panic!("not a triangle record"),
    }
}

#[test]
fn aabb_geometry_uses_sixteen_byte_stride() {
    let g = AABBGeometry::new(BufferView { device_address: 0x4000, offset: 0 }, 5);
    assert_eq!(g.primitives_count(), 5);
    assert_eq!(g.geometry(), GeometryRecord::Aabbs { data_address: 0x4000, stride: 16 });
}

#[test]
fn transform_rows_come_from_columns() {
    let cols: [u32; 16] = core::array::from_fn(|i| i as u32);
    assert_eq!(transform_from_columns(&cols), [0, 4, 8, 12, 1, 5, 9, 13, 2, 6, 10, 14]);
}

#[test]
fn one_triangle_scene_builds_both_levels() {
    let (index, vertex) = views(3);
    let tri = TriangleGeometry::new(&index, &vertex, None).unwrap();
    let mut blas_build = BottomAccelerationStructure::triangles_build(&[tri]);
    assert_eq!(blas_build.primitive_counts(), vec![1]);
    let actions = run_build(&mut blas_build, 2048, 11, 0xa000);
    assert_eq!(actions[0], BuildAction::CreateStructure { size: 2048 });
    assert_eq!(actions[1], BuildAction::AllocateScratch { size: 256 });
    assert_eq!(actions[2], BuildAction::SubmitAndWait { structure: 11, scratch_address: 0x9000 });
    assert_eq!(actions[3], BuildAction::ResolveAddress { structure: 11 });
    assert_eq!(actions[4], BuildAction::Finished);
    let blas = BottomAccelerationStructure::from_build(&blas_build).unwrap();
    assert!(blas.structure.structure_size > 0);
    assert_ne!(blas.device_address(), 0);

    let mut inst = BLASInstance::new(&blas, &identity(), 0);
    let record = inst.record();
    assert_eq!(record.acceleration_structure_reference, 0xa000);
    assert_eq!(record.instance_custom_index_and_mask, 0xff00_0000);
    assert_eq!(record.instance_shader_binding_table_record_offset_and_flags, 0x0100_0000);
    inst.build(0xb000);
    let instances = [inst];
    let bytes = InstanceGeometry::pointer_array_bytes(&instances).unwrap();
    assert_eq!(bytes, 0xb000u64.to_ne_bytes().to_vec());
    let geometry = InstanceGeometry::new(&instances, 0xc000).unwrap();
    assert_eq!(geometry.instance_count(), 1);

    let mut tlas_build = TopAccelerationStructure::instances_build(&[InstanceGeometry::new(&instances, 0xc000).unwrap()]);
    assert_eq!(tlas_build.kind, AccelerationStructureKind::TopLevel);
    run_build(&mut tlas_build, 1024, 12, 0xd000);
    let tlas = TopAccelerationStructure::from_build(&tlas_build, vec![geometry]).unwrap();
    assert_ne!(tlas.device_address(), 0);
    assert_ne!(tlas.device_address(), blas.device_address());
    assert_eq!(tlas.geometries().len(), 1);
}

#[test]
fn unfinalized_instance_is_invalid_state() {
    let (index, vertex) = views(3);
    let tri = TriangleGeometry::new(&index, &vertex, None).unwrap();
    let mut build = BottomAccelerationStructure::triangles_build(&[tri]);
    run_build(&mut build, 64, 1, 0x100);
    let blas = BottomAccelerationStructure::from_build(&build).unwrap();
    let mut a = BLASInstance::new(&blas, &identity(), 3);
    a.build(0x500);
    let b = BLASInstance::new(&blas, &identity(), 4);
    let r = InstanceGeometry::new(&[a, b], 0x600);
    assert!(matches!(r, Err(RtError::Validation(ValidationError::InvalidState))));
    assert!(matches!(
        InstanceGeometry::pointer_array_bytes(&[a, b]),
        Err(RtError::Validation(ValidationError::InvalidState))
    ));
    let mut moved = a;
    moved.set_transform(&identity());
    assert!(!moved.is_finalized());
}

#[test]
fn zero_structure_size_is_a_device_error() {
    let mut build = BottomAccelerationStructure::aabbs_build(&[AABBGeometry::new(
        BufferView { device_address: 0x4000, offset: 0 },
        2,
    )]);
    let a = build.step(BuildEvent::SizesQueried(BuildSizes { acceleration_structure_size: 0, build_scratch_size: 0 }));
    assert_eq!(a, BuildAction::Abort(RtError::DeviceError));
    assert_eq!(build.state.phase, BuildPhase::Failed(RtError::DeviceError));
    assert!(BottomAccelerationStructure::from_build(&build).is_none());
}

#[test]
fn completion_before_submit_is_invalid_state() {
    let mut build = BottomAccelerationStructure::aabbs_build(&[]);
    build.step(BuildEvent::SizesQueried(BuildSizes { acceleration_structure_size: 64, build_scratch_size: 64 }));
    let a = build.step(BuildEvent::Completed);
    assert_eq!(a, BuildAction::Abort(RtError::Validation(ValidationError::InvalidState)));
    assert!(build.finish().is_none());
}

#[test]
fn device_failure_aborts_build() {
    let mut build = TopAccelerationStructure::instances_build(&[]);
    let a = build.step(BuildEvent::DeviceFailed);
    assert_eq!(a, BuildAction::Abort(RtError::DeviceError));
    let again = build.step(BuildEvent::Completed);
    assert_eq!(again, BuildAction::Abort(RtError::DeviceError));
}

#[test]
fn zero_device_address_is_a_device_error() {
    let mut build = TopAccelerationStructure::instances_build(&[]);
    let actions = run_build(&mut build, 64, 5, 0);
    assert_eq!(actions[4], BuildAction::Abort(RtError::DeviceError));
    assert!(TopAccelerationStructure::from_build(&build, Vec::new()).is_none());
}

use rtcore::sbt::aligned_stride;
use rtcore::{
    PhysicalDeviceRayTracingPipelineProperties, PipelineShaderBindingTables, RtError,
    ShaderBindingTableLayout, StridedRegion, ValidationError,
};

fn props(handle_size: u32, base_alignment: u32, max_stride: u32) -> PhysicalDeviceRayTracingPipelineProperties {
    PhysicalDeviceRayTracingPipelineProperties {
        shader_group_handle_size: handle_size,
        max_ray_recursion_depth: 31,
        max_shader_group_stride: max_stride,
        shader_group_base_alignment: base_alignment,
        max_ray_dispatch_invocation_count: 1 << 30,
        shader_group_handle_alignment: 32,
        max_ray_hit_attribute_size: 32,
    }
}

/// Group `g`'s handle: `handle_size` bytes, each `16 * g + k + 1`.
fn blob(groups: usize, handle_size: usize) -> Vec<u8> {
    let mut v = Vec::new();
    for g in 0..groups {
        for k in 0..handle_size {
            v.push((16 * g + k + 1) as u8);
        }
    }
    v
}

#[test]
fn stride_rounds_up_to_alignment() {
    assert_eq!(aligned_stride(32, 64), 64);
    assert_eq!(aligned_stride(64, 32), 64);
    assert_eq!(aligned_stride(32, 32), 32);
    assert_eq!(aligned_stride(33, 32), 64);
    assert_eq!(aligned_stride(1, 1), 1);
}

#[test]
fn stride_above_maximum_is_an_alignment_violation() {
    let r = ShaderBindingTableLayout::new(&props(32, 64, 32), 1, 1, &[0]);
    assert!(matches!(r, Err(RtError::AlignmentViolation)));
    let ok = ShaderBindingTableLayout::new(&props(32, 64, 64), 1, 1, &[0]);
    assert!(ok.is_ok());
}

#[test]
fn unknown_hit_group_index_is_rejected() {
    let r = ShaderBindingTableLayout::new(&props(32, 64, 4096), 1, 3, &[0, 3]);
    assert!(matches!(r, Err(RtError::Validation(ValidationError::InvalidHitGroupIndex))));
}

#[test]
fn oversized_table_is_a_device_error() {
    let r = ShaderBindingTableLayout::new(&props(32, 64, 4096), usize::MAX - 1, 1, &[0]);
    assert!(matches!(r, Err(RtError::DeviceError)));
}

#[test]
fn packed_slots_hold_handle_then_zeros() {
    let layout = ShaderBindingTableLayout::new(&props(8, 16, 4096), 2, 2, &[1, 0]).unwrap();
    assert_eq!(layout.stride, 16);
    let handles = blob(1 + 2 + 2, 8);
    let out = layout.pack(&handles);
    assert_eq!(out.len(), 5 * 16);
    // slot s holds group: 0, 1, 2, then hit groups 1 and 0 (groups 4 and 3)
    let groups = [0usize, 1, 2, 4, 3];
    for (s, g) in groups.iter().enumerate() {
        for k in 0..16 {
            let expected = if k < 8 { handles[g * 8 + k] } else { 0 };
            assert_eq!(out[s * 16 + k], expected, "slot {} byte {}", s, k);
        }
    }
}

#[test]
fn hit_region_follows_requested_order() {
    // one miss shader, three hit groups; request [2, 0, 1]
    let layout = ShaderBindingTableLayout::new(&props(32, 64, 4096), 1, 3, &[2, 0, 1]).unwrap();
    let handles = blob(5, 32);
    let out = layout.pack(&handles);
    let hit = 2 * 64;
    assert_eq!(&out[hit..hit + 32], &handles[(2 + 2) * 32..(2 + 3) * 32]);
    assert_eq!(&out[hit + 64..hit + 96], &handles[(2 + 0) * 32..(2 + 1) * 32]);
    assert_eq!(&out[hit + 128..hit + 160], &handles[(2 + 1) * 32..(2 + 2) * 32]);
    assert!(out[hit + 32..hit + 64].iter().all(|b| *b == 0));
}

#[test]
fn regions_are_aligned_and_contiguous() {
    let layout = ShaderBindingTableLayout::new(&props(32, 64, 4096), 2, 3, &[0, 2]).unwrap();
    let tables = PipelineShaderBindingTables::new(layout, 0x10000).unwrap();
    assert_eq!(
        tables.ray_gen_table().region,
        StridedRegion { device_address: 0x10000, stride: 64, size: 64 }
    );
    assert_eq!(
        tables.miss_table().region,
        StridedRegion { device_address: 0x10040, stride: 64, size: 128 }
    );
    assert_eq!(
        tables.hit_table().region,
        StridedRegion { device_address: 0x100c0, stride: 64, size: 128 }
    );
    assert_eq!(tables.callable_table().region, StridedRegion { device_address: 0, stride: 0, size: 0 });
}

#[test]
fn misaligned_buffer_is_an_alignment_violation() {
    let layout = ShaderBindingTableLayout::new(&props(32, 64, 4096), 1, 1, &[0]).unwrap();
    assert!(matches!(PipelineShaderBindingTables::new(layout, 0x10020), Err(RtError::AlignmentViolation)));
}

#[test]
fn two_views_agree_on_strides_and_sizes() {
    let p = props(32, 64, 4096);
    let a = PipelineShaderBindingTables::new(ShaderBindingTableLayout::new(&p, 1, 3, &[2, 0, 1]).unwrap(), 0x1000)
        .unwrap();
    let b = PipelineShaderBindingTables::new(ShaderBindingTableLayout::new(&p, 1, 3, &[2, 0, 1]).unwrap(), 0x8000)
        .unwrap();
    for (x, y) in [
        (a.ray_gen_table().region, b.ray_gen_table().region),
        (a.miss_table().region, b.miss_table().region),
        (a.hit_table().region, b.hit_table().region),
        (a.callable_table().region, b.callable_table().region),
    ] {
        assert_eq!(x.stride, y.stride);
        assert_eq!(x.size, y.size);
    }
    let handles = blob(5, 32);
    assert_eq!(a.layout.pack(&handles), b.layout.pack(&handles));
}

use rtcore::{
    HitGroup, PhysicalDeviceRayTracingPipelineProperties, PipelineGroupTable, ProceduralHitGroup,
    RayTracingPipeline, RtError, ShaderGroup, ShaderGroupType, ShaderStage, ShaderStageKind, TrianglesHitGroup,
    ValidationError,
};

fn stage(kind: ShaderStageKind, name: &str) -> ShaderStage {
    ShaderStage::new(7, kind, name)
}

fn general(i: u32) -> ShaderGroup {
    ShaderGroup {
        ty: ShaderGroupType::General,
        general_shader: Some(i),
        closest_hit_shader: None,
        any_hit_shader: None,
        intersection_shader: None,
    }
}

fn sample_hit_groups() -> Vec<HitGroup> {
    let closest = stage(ShaderStageKind::ClosestHit, "closest");
    let any = stage(ShaderStageKind::AnyHit, "any");
    let isect = stage(ShaderStageKind::Intersection, "isect");
    vec![
        HitGroup::Triangles(TrianglesHitGroup::new(&closest, None)),
        HitGroup::Procedural(ProceduralHitGroup::new(&closest, &isect, Some(&any))),
        HitGroup::Triangles(TrianglesHitGroup::new(&closest, Some(&any))),
        HitGroup::Procedural(ProceduralHitGroup::new(&closest, &isect, None)),
    ]
}

#[test]
fn group_indices_follow_stage_order() {
    let raygen = stage(ShaderStageKind::Raygen, "main");
    let misses = vec![stage(ShaderStageKind::Miss, "miss"), stage(ShaderStageKind::Miss, "shadow")];
    let hits = sample_hit_groups();
    let table = PipelineGroupTable::new(&raygen, &misses, &hits).unwrap();
    assert_eq!(table.groups.len(), 1 + 2 + 4);
    let kinds: Vec<ShaderStageKind> = table.stages.iter().map(|s| s.stage).collect();
    assert_eq!(
        kinds,
        vec![
            ShaderStageKind::Raygen,
            ShaderStageKind::Miss,
            ShaderStageKind::Miss,
            ShaderStageKind::ClosestHit,
            ShaderStageKind::ClosestHit,
            ShaderStageKind::AnyHit,
            ShaderStageKind::Intersection,
            ShaderStageKind::ClosestHit,
            ShaderStageKind::AnyHit,
            ShaderStageKind::ClosestHit,
            ShaderStageKind::Intersection,
        ]
    );
    assert_eq!(table.groups[0], general(0));
    assert_eq!(table.groups[1], general(1));
    assert_eq!(table.groups[2], general(2));
    assert_eq!(
        table.groups[3],
        ShaderGroup {
            ty: ShaderGroupType::TrianglesHitGroup,
            general_shader: None,
            closest_hit_shader: Some(3),
            any_hit_shader: None,
            intersection_shader: None,
        }
    );
    assert_eq!(
        table.groups[4],
        ShaderGroup {
            ty: ShaderGroupType::ProceduralHitGroup,
            general_shader: None,
            closest_hit_shader: Some(4),
            any_hit_shader: Some(5),
            intersection_shader: Some(6),
        }
    );
    assert_eq!(
        table.groups[5],
        ShaderGroup {
            ty: ShaderGroupType::TrianglesHitGroup,
            general_shader: None,
            closest_hit_shader: Some(7),
            any_hit_shader: Some(8),
            intersection_shader: None,
        }
    );
    assert_eq!(
        table.groups[6],
        ShaderGroup {
            ty: ShaderGroupType::ProceduralHitGroup,
            general_shader: None,
            closest_hit_shader: Some(9),
            any_hit_shader: None,
            intersection_shader: Some(10),
        }
    );
}

#[test]
fn wrong_raygen_kind_is_rejected() {
    let raygen = stage(ShaderStageKind::Miss, "main");
    let r = PipelineGroupTable::new(&raygen, &[], &[]);
    assert!(matches!(r, Err(RtError::Validation(ValidationError::InvalidShaderStage))));
}

#[test]
fn wrong_miss_kind_is_rejected() {
    let raygen = stage(ShaderStageKind::Raygen, "main");
    let misses = vec![stage(ShaderStageKind::Miss, "miss"), stage(ShaderStageKind::ClosestHit, "oops")];
    let r = PipelineGroupTable::new(&raygen, &misses, &[]);
    assert!(matches!(r, Err(RtError::Validation(ValidationError::InvalidShaderStage))));
}

#[test]
fn pipeline_counts_groups_and_handles() {
    let raygen = stage(ShaderStageKind::Raygen, "main");
    let misses = vec![stage(ShaderStageKind::Miss, "miss")];
    let hits = sample_hit_groups();
    let table = PipelineGroupTable::new(&raygen, &misses, &hits).unwrap();
    assert_eq!(table.groups.len(), 1 + 1 + 4);
    let p = RayTracingPipeline::new(1, table, 32, vec![0u8; 6 * 32]).unwrap();
    assert_eq!(p.group_count(), 6);
    assert_eq!(p.shader_group_handles.len(), p.group_count() * 32);
}

#[test]
fn short_handle_blob_is_a_device_error() {
    let raygen = stage(ShaderStageKind::Raygen, "main");
    let table = PipelineGroupTable::new(&raygen, &[], &[]).unwrap();
    assert!(matches!(RayTracingPipeline::new(1, table, 32, vec![0u8; 31]), Err(RtError::DeviceError)));
}

#[test]
fn pipeline_packs_its_binding_table() {
    let raygen = stage(ShaderStageKind::Raygen, "main");
    let misses = vec![stage(ShaderStageKind::Miss, "miss")];
    let closest = stage(ShaderStageKind::ClosestHit, "closest");
    let hits = vec![
        HitGroup::Triangles(TrianglesHitGroup::new(&closest, None)),
        HitGroup::Triangles(TrianglesHitGroup::new(&closest, None)),
        HitGroup::Triangles(TrianglesHitGroup::new(&closest, None)),
    ];
    let table = PipelineGroupTable::new(&raygen, &misses, &hits).unwrap();
    let handles: Vec<u8> = (0..5u8).flat_map(|g| std::iter::repeat(g + 1).take(32)).collect();
    let p = RayTracingPipeline::new(1, table, 32, handles).unwrap();
    let props = PhysicalDeviceRayTracingPipelineProperties {
        shader_group_handle_size: 32,
        max_ray_recursion_depth: 31,
        max_shader_group_stride: 4096,
        shader_group_base_alignment: 64,
        max_ray_dispatch_invocation_count: 1 << 30,
        shader_group_handle_alignment: 32,
        max_ray_hit_attribute_size: 32,
    };
    let (layout, bytes) = p.create_shader_binding_tables(&props, &[2, 0, 1]).unwrap();
    assert_eq!(layout.stride, 64);
    assert_eq!(bytes.len(), 5 * 64);
    let firsts: Vec<u8> = (0..5).map(|s| bytes[s * 64]).collect();
    assert_eq!(firsts, vec![1, 2, 5, 3, 4]);
    assert!(bytes[32..64].iter().all(|b| *b == 0));
}

#[test]
fn hit_group_stages_and_flags() {
    let closest = stage(ShaderStageKind::ClosestHit, "closest");
    let any = stage(ShaderStageKind::AnyHit, "any");
    let isect = stage(ShaderStageKind::Intersection, "isect");
    let g = HitGroup::Procedural(ProceduralHitGroup::new(&closest, &isect, Some(&any)));
    assert!(g.has_closest_hit_shader());
    assert!(g.has_any_hit_shader());
    assert!(g.has_intersection_shader());
    assert_eq!(g.shader_group_type(), ShaderGroupType::ProceduralHitGroup);
    let names: Vec<String> = g.shader_stages().iter().map(|s| s.entry_point.clone()).collect();
    assert_eq!(names, vec!["closest", "any", "isect"]);
    let t = HitGroup::Triangles(TrianglesHitGroup::new(&closest, None));
    assert!(!t.has_any_hit_shader());
    assert!(!t.has_intersection_shader());
    assert_eq!(t.shader_group_type(), ShaderGroupType::TrianglesHitGroup);
    assert_eq!(t.shader_stages().len(), 1);
}

use vstd::prelude::*;

use crate::error::{RtError, ValidationError};
use crate::hit_group::{HitGroup, ShaderGroupType};
use crate::physical_device::PhysicalDeviceRayTracingPipelineProperties;
use crate::sbt::{layout_error, ShaderBindingTableLayout};
use crate::shader_stage::{ShaderStage, ShaderStageKind};

verus! {

/// One logical shader group of a ray-tracing pipeline. Each index names a
/// position in the pipeline's stage list; `None` is an unused slot.
#[derive(Debug, Clone, Copy, PartialEq, Eq, Structural)]
pub struct ShaderGroup {
    pub ty: ShaderGroupType,
    pub general_shader: Option<u32>,
    pub closest_hit_shader: Option<u32>,
    pub any_hit_shader: Option<u32>,
    pub intersection_shader: Option<u32>,
}

/// The stages of the first `j` hit groups, one group after the other.
pub open spec fn hit_stages(hits: Seq<HitGroup>, j: int) -> Seq<ShaderStage>
    decreases j,
{
    if j <= 0 {
        seq![]
    } else {
        hit_stages(hits, j - 1) + hits[j - 1].stages()
    }
}

/// The pipeline's stage list: ray generation, the miss shaders in order,
/// then the stages of each hit group in order.
pub open spec fn pipeline_stages(
    ray_gen_shader: ShaderStage,
    miss_shaders: Seq<ShaderStage>,
    hits: Seq<HitGroup>,
) -> Seq<ShaderStage> {
    seq![ray_gen_shader] + miss_shaders + hit_stages(hits, hits.len() as int)
}

pub open spec fn general_group(i: int) -> ShaderGroup {
    ShaderGroup {
        ty: ShaderGroupType::General,
        general_shader: Some(i as u32),
        closest_hit_shader: None,
        any_hit_shader: None,
        intersection_shader: None,
    }
}

/// The group of hit group `h` whose stages start at `cursor` in the stage
/// list: closest hit at `cursor`, then any hit, then intersection.
pub open spec fn hit_group_record(h: HitGroup, cursor: int) -> ShaderGroup {
    let next = if h.spec_has_any_hit() { cursor + 2 } else { cursor + 1 };
    ShaderGroup {
        ty: if h is Triangles { ShaderGroupType::TrianglesHitGroup } else { ShaderGroupType::ProceduralHitGroup },
        general_shader: None,
        closest_hit_shader: Some(cursor as u32),
        any_hit_shader: if h.spec_has_any_hit() { Some((cursor + 1) as u32) } else { None },
        intersection_shader: if h.spec_has_intersection() { Some(next as u32) } else { None },
    }
}

/// The group table: group 0 is ray generation, groups `1..=miss_count` are
/// the miss shaders, and each later group is a hit group, its indices
/// starting where its stages start.
pub open spec fn pipeline_groups(miss_count: nat, hits: Seq<HitGroup>) -> Seq<ShaderGroup> {
    Seq::new(
        1 + miss_count + hits.len(),
        |g: int|
            if g <= miss_count {
                general_group(g)
            } else {
                hit_group_record(hits[g - 1 - miss_count], (1 + miss_count + hit_stages(hits, g - 1 - miss_count).len()) as int)
            },
    )
}

/// Inputs that pass validation: the ray generation stage and every miss
/// stage are of their kinds.
pub open spec fn stages_valid(ray_gen_shader: ShaderStage, miss_shaders: Seq<ShaderStage>) -> bool {
    &&& ray_gen_shader.stage == ShaderStageKind::Raygen
    &&& forall|i: int| 0 <= i < miss_shaders.len() ==> #[trigger] miss_shaders[i].stage == ShaderStageKind::Miss
}

/// The first `j` hit groups' stages are a prefix of the first `k` groups'.
pub proof fn lemma_hit_stages_prefix(hits: Seq<HitGroup>, j: int, k: int)
    requires
        0 <= j <= k <= hits.len(),
    ensures
        hit_stages(hits, j).len() <= hit_stages(hits, k).len(),
        hit_stages(hits, k).subrange(0, hit_stages(hits, j).len() as int) == hit_stages(hits, j),
    decreases k - j,
{
    if j < k {
        lemma_hit_stages_prefix(hits, j, k - 1);
        let a = hit_stages(hits, k - 1);
        assert((a + hits[k - 1].stages()).subrange(0, hit_stages(hits, j).len() as int)
            =~= a.subrange(0, hit_stages(hits, j).len() as int));
    }
}

/// The stage list and group list that a ray-tracing pipeline is created
/// from, in the order whose group handles the driver returns.
pub struct PipelineGroupTable {
    pub stages: Vec<ShaderStage>,
    pub groups: Vec<ShaderGroup>,
    pub miss_count: usize,
    pub hit_group_count: usize,
}

impl PipelineGroupTable {
    pub open spec fn wf(&self) -> bool {
        self.groups@.len() == 1 + self.miss_count + self.hit_group_count
    }

    /// Assembles the stage list and assigns each group its stage indices.
    /// Fails with `InvalidShaderStage` when the ray generation stage or a
    /// miss stage is of another kind.
    pub fn new(ray_gen_shader: &ShaderStage, miss_shaders: &[ShaderStage], hit_groups: &[HitGroup]) -> (r: Result<
        Self,
        RtError,
    >)
        requires
            pipeline_stages(*ray_gen_shader, miss_shaders@, hit_groups@).len() < u32::MAX,
        ensures
            (r is Ok) <==> stages_valid(*ray_gen_shader, miss_shaders@),
            r is Err ==> r == Err::<Self, RtError>(RtError::Validation(ValidationError::InvalidShaderStage)),
            r matches Ok(t) ==> {
                &&& t.wf()
                &&& t.stages@ == pipeline_stages(*ray_gen_shader, miss_shaders@, hit_groups@)
                &&& t.groups@ == pipeline_groups(miss_shaders@.len(), hit_groups@)
                &&& t.miss_count == miss_shaders@.len()
                &&& t.hit_group_count == hit_groups@.len()
            },
    {
        if ray_gen_shader.stage != ShaderStageKind::Raygen {
            return Err(RtError::Validation(ValidationError::InvalidShaderStage));
        }
        let n = miss_shaders.len();
        let m = hit_groups.len();
        let ghost hits = hit_groups@;
        let ghost all = pipeline_stages(*ray_gen_shader, miss_shaders@, hits);
        let mut stages: Vec<ShaderStage> = Vec::new();
        let mut groups: Vec<ShaderGroup> = Vec::new();
        stages.push(ray_gen_shader.clone());
        groups.push(
            ShaderGroup {
                ty: ShaderGroupType::General,
                general_shader: Some(0),
                closest_hit_shader: None,
                any_hit_shader: None,
                intersection_shader: None,
            },
        );
        let mut i: usize = 0;
        while i < n
            invariant
                n == miss_shaders@.len(),
                ray_gen_shader.stage == ShaderStageKind::Raygen,
                all.len() < u32::MAX,
                all == pipeline_stages(*ray_gen_shader, miss_shaders@, hits),
                hits == hit_groups@,
                i <= n,
                forall|j: int| 0 <= j < i ==> #[trigger] miss_shaders@[j].stage == ShaderStageKind::Miss,
                stages@ == seq![*ray_gen_shader] + miss_shaders@.subrange(0, i as int),
                groups@ == pipeline_groups(n as nat, hits).subrange(0, 1 + i),
            decreases n - i,
        {
            let s = &miss_shaders[i];
            if s.stage != ShaderStageKind::Miss {
                return Err(RtError::Validation(ValidationError::InvalidShaderStage));
            }
            stages.push(s.clone());
            groups.push(
                ShaderGroup {
                    ty: ShaderGroupType::General,
                    general_shader: Some((i + 1) as u32),
                    closest_hit_shader: None,
                    any_hit_shader: None,
                    intersection_shader: None,
                },
            );
            proof {
                assert(stages@ =~= seq![*ray_gen_shader] + miss_shaders@.subrange(0, i + 1));
                assert(groups@ =~= pipeline_groups(n as nat, hits).subrange(0, 1 + i + 1));
            }
            i = i + 1;
        }
        assert(stages@ =~= seq![*ray_gen_shader] + miss_shaders@ + hit_stages(hits, 0));
        let mut j: usize = 0;
        while j < m
            invariant
                n == miss_shaders@.len(),
                m == hits.len(),
                hits == hit_groups@,
                stages_valid(*ray_gen_shader, miss_shaders@),
                all.len() < u32::MAX,
                all == pipeline_stages(*ray_gen_shader, miss_shaders@, hits),
                j <= m,
                stages@ == seq![*ray_gen_shader] + miss_shaders@ + hit_stages(hits, j as int),
                groups@ == pipeline_groups(n as nat, hits).subrange(0, 1 + n + j),
            decreases m - j,
        {
            let h = &hit_groups[j];
            proof {
                lemma_hit_stages_prefix(hits, j + 1, m as int);
                lemma_hit_stages_prefix(hits, j as int, j + 1);
            }
            let cursor = stages.len();
            let any = h.has_any_hit_shader();
            let closest = cursor as u32;
            let group = ShaderGroup {
                ty: h.shader_group_type(),
                general_shader: None,
                closest_hit_shader: Some(closest),
                any_hit_shader: if any { Some(closest + 1) } else { None },
                intersection_shader: if h.has_intersection_shader() {
                    if any { Some(closest + 2) } else { Some(closest + 1) }
                } else {
                    None
                },
            };
            let hs = h.shader_stages();
            let mut t: usize = 0;
            while t < hs.len()
                invariant
                    t <= hs@.len(),
                    hs@ == hits[j as int].stages(),
                    stages@ == seq![*ray_gen_shader] + miss_shaders@ + hit_stages(hits, j as int) + hs@.subrange(0, t as int),
                decreases hs@.len() - t,
            {
                stages.push(hs[t].clone());
                assert(stages@ =~= seq![*ray_gen_shader] + miss_shaders@ + hit_stages(hits, j as int) + hs@.subrange(0, t + 1));
                t = t + 1;
            }
            groups.push(group);
            proof {
                assert(stages@ =~= seq![*ray_gen_shader] + miss_shaders@ + hit_stages(hits, j + 1));
                assert(groups@ =~= pipeline_groups(n as nat, hits).subrange(0, 1 + n + j + 1));
            }
            j = j + 1;
        }
        assert(groups@ =~= pipeline_groups(n as nat, hits));
        Ok(PipelineGroupTable { stages, groups, miss_count: n, hit_group_count: m })
    }
}

/// Every index of every group names a stage of the matching kind: the
/// general index of group 0 the ray generation stage, that of each other
/// general group a miss stage, and the closest-hit, any-hit and intersection
/// indices of a hit group stages of those kinds.
pub proof fn lemma_group_indices_name_their_stages(
    ray_gen_shader: ShaderStage,
    miss_shaders: Seq<ShaderStage>,
    hits: Seq<HitGroup>,
    g: int,
)
    requires
        stages_valid(ray_gen_shader, miss_shaders),
        forall|j: int| 0 <= j < hits.len() ==> (#[trigger] hits[j]).wf(),
        pipeline_stages(ray_gen_shader, miss_shaders, hits).len() < u32::MAX,
        0 <= g < pipeline_groups(miss_shaders.len(), hits).len(),
    ensures
        ({
            let grp = pipeline_groups(miss_shaders.len(), hits)[g];
            let st = pipeline_stages(ray_gen_shader, miss_shaders, hits);
            &&& grp.general_shader matches Some(i) ==> i < st.len()
                && st[i as int].stage == (if g == 0 { ShaderStageKind::Raygen } else { ShaderStageKind::Miss })
            &&& grp.closest_hit_shader matches Some(i) ==> i < st.len() && st[i as int].stage == ShaderStageKind::ClosestHit
            &&& grp.any_hit_shader matches Some(i) ==> i < st.len() && st[i as int].stage == ShaderStageKind::AnyHit
            &&& grp.intersection_shader matches Some(i) ==> i < st.len() && st[i as int].stage == ShaderStageKind::Intersection
        }),
{
    let n = miss_shaders.len() as int;
    let st = pipeline_stages(ray_gen_shader, miss_shaders, hits);
    if g == 0 {
        assert(st[0] == ray_gen_shader);
    } else if g <= n {
        assert(st[g] == miss_shaders[g - 1]);
    } else {
        let j = g - 1 - n;
        let m = hits.len() as int;
        lemma_hit_stages_prefix(hits, j + 1, m);
        lemma_hit_stages_prefix(hits, j, j + 1);
        let pre = hit_stages(hits, j);
        let own = hits[j].stages();
        let cursor = 1 + n + pre.len();
        assert forall|t: int| 0 <= t < own.len() implies cursor + t < st.len() && st[cursor + t] == own[t] by {
            assert(hit_stages(hits, j + 1) == pre + own);
            assert(hit_stages(hits, m)[pre.len() + t] == hit_stages(hits, j + 1)[pre.len() + t]);
        }
        assert(hits[j].wf());
        assert(st[cursor] == own[0]);
        if hits[j].spec_has_any_hit() {
            assert(st[cursor + 1] == own[1]);
        }
        if hits[j].spec_has_intersection() {
            assert(st[cursor + own.len() - 1] == own[own.len() - 1]);
        }
    }
}

/// A created ray-tracing pipeline: its native handle, its group table and
/// the opaque handle of each group, `handle_size` bytes per group in group
/// order.
pub struct RayTracingPipeline {
    pub handle: u64,
    pub table: PipelineGroupTable,
    pub handle_size: usize,
    pub shader_group_handles: Vec<u8>,
}

impl RayTracingPipeline {
    pub open spec fn wf(&self) -> bool {
        &&& self.table.wf()
        &&& self.shader_group_handles@.len() == self.table.groups@.len() * self.handle_size
    }

    /// Keeps the group handles that the driver returned for `table`; fails
    /// with `DeviceError` when their length is not one handle per group.
    pub fn new(handle: u64, table: PipelineGroupTable, handle_size: u32, shader_group_handles: Vec<u8>) -> (r:
        Result<Self, RtError>)
        requires
            table.wf(),
        ensures
            (r is Ok) <==> shader_group_handles@.len() == table.groups@.len() * handle_size,
            r is Err ==> r == Err::<Self, RtError>(RtError::DeviceError),
            r matches Ok(p) ==> {
                &&& p.wf()
                &&& p.handle == handle
                &&& p.table == table
                &&& p.handle_size == handle_size
                &&& p.shader_group_handles@ == shader_group_handles@
            },
    {
        let supplied = shader_group_handles.len();
        match table.groups.len().checked_mul(handle_size as usize) {
            None => {
                return Err(RtError::DeviceError);
            },
            Some(expected) => {
                if supplied != expected {
                    return Err(RtError::DeviceError);
                }
            },
        }
        Ok(RayTracingPipeline { handle, table, handle_size: handle_size as usize, shader_group_handles })
    }

    pub fn group_count(&self) -> (r: usize)
        ensures
            r == self.table.groups@.len(),
    {
        self.table.groups.len()
    }

    /// Lays out and packs a shader binding table whose hit region holds the
    /// hit groups `hit_groups` in that order; fails as
    /// `ShaderBindingTableLayout::new` does.
    pub fn create_shader_binding_tables(
        &self,
        props: &PhysicalDeviceRayTracingPipelineProperties,
        hit_groups: &[u32],
    ) -> (r: Result<(ShaderBindingTableLayout, Vec<u8>), RtError>)
        requires
            self.wf(),
            props.usable_for_binding_tables(),
            props.shader_group_handle_size == self.handle_size,
        ensures
            match layout_error(*props, self.table.miss_count as nat, self.table.hit_group_count as nat, hit_groups@) {
                Some(e) => r == Err::<(ShaderBindingTableLayout, Vec<u8>), RtError>(e),
                None => r matches Ok((l, bytes)) && {
                    &&& l.wf()
                    &&& l.describes(*props, self.table.miss_count as nat, self.table.hit_group_count as nat, hit_groups@)
                    &&& bytes@ == l.packed(self.shader_group_handles@)
                },
            },
    {
        match ShaderBindingTableLayout::new(props, self.table.miss_count, self.table.hit_group_count, hit_groups) {
            Err(e) => Err(e),
            Ok(layout) => {
                let bytes = layout.pack(self.shader_group_handles.as_slice());
                Ok((layout, bytes))
            },
        }
    }
}

/// A pipeline has one group for ray generation, one per miss shader and one
/// per hit group, and one handle of `handle_size` bytes per group.
pub proof fn lemma_pipeline_counts(p: RayTracingPipeline)
    requires
        p.wf(),
    ensures
        p.table.groups@.len() == 1 + p.table.miss_count + p.table.hit_group_count,
        p.shader_group_handles@.len() == p.table.groups@.len() * p.handle_size,
{
}

} // verus!

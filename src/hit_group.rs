use vstd::prelude::*;

use crate::shader_stage::{ShaderStage, ShaderStageKind};

verus! {

/// How the driver treats a shader group.
#[derive(Debug, Clone, Copy, PartialEq, Eq, Structural)]
pub enum ShaderGroupType {
    General,
    TrianglesHitGroup,
    ProceduralHitGroup,
}

pub open spec fn any_hit_ok(any_hit_shader: Option<ShaderStage>) -> bool {
    any_hit_shader matches Some(a) ==> a.stage == ShaderStageKind::AnyHit
}

pub open spec fn cloned_option(o: Option<&ShaderStage>) -> Option<ShaderStage> {
    match o {
        Some(s) => Some(*s),
        None => None,
    }
}

fn clone_option(o: &Option<ShaderStage>) -> (r: Option<ShaderStage>)
    ensures
        r == *o,
{
    match o {
        Some(s) => Some(s.clone()),
        None => None,
    }
}

/// A hit group for triangle geometry: a closest-hit shader and an optional
/// any-hit shader.
pub struct TrianglesHitGroup {
    pub closest_hit_shader: ShaderStage,
    pub any_hit_shader: Option<ShaderStage>,
}

impl Clone for TrianglesHitGroup {
    fn clone(&self) -> (r: Self)
        ensures
            r == *self,
    {
        TrianglesHitGroup {
            closest_hit_shader: self.closest_hit_shader.clone(),
            any_hit_shader: clone_option(&self.any_hit_shader),
        }
    }
}

impl TrianglesHitGroup {
    pub open spec fn wf(&self) -> bool {
        &&& self.closest_hit_shader.stage == ShaderStageKind::ClosestHit
        &&& any_hit_ok(self.any_hit_shader)
    }

    pub fn new(closest_hit_shader: &ShaderStage, any_hit_shader: Option<&ShaderStage>) -> (r: Self)
        requires
            closest_hit_shader.stage == ShaderStageKind::ClosestHit,
            any_hit_ok(cloned_option(any_hit_shader)),
        ensures
            r.wf(),
            r.closest_hit_shader == *closest_hit_shader,
            r.any_hit_shader == cloned_option(any_hit_shader),
    {
        let any = match any_hit_shader {
            Some(a) => Some(a.clone()),
            None => None,
        };
        TrianglesHitGroup { closest_hit_shader: closest_hit_shader.clone(), any_hit_shader: any }
    }
}

/// A hit group for procedural geometry: a closest-hit shader, an
/// intersection shader and an optional any-hit shader.
pub struct ProceduralHitGroup {
    pub closest_hit_shader: ShaderStage,
    pub intersection_shader: ShaderStage,
    pub any_hit_shader: Option<ShaderStage>,
}

impl Clone for ProceduralHitGroup {
    fn clone(&self) -> (r: Self)
        ensures
            r == *self,
    {
        ProceduralHitGroup {
            closest_hit_shader: self.closest_hit_shader.clone(),
            intersection_shader: self.intersection_shader.clone(),
            any_hit_shader: clone_option(&self.any_hit_shader),
        }
    }
}

impl ProceduralHitGroup {
    pub open spec fn wf(&self) -> bool {
        &&& self.closest_hit_shader.stage == ShaderStageKind::ClosestHit
        &&& self.intersection_shader.stage == ShaderStageKind::Intersection
        &&& any_hit_ok(self.any_hit_shader)
    }

    pub fn new(
        closest_hit_shader: &ShaderStage,
        intersection_shader: &ShaderStage,
        any_hit_shader: Option<&ShaderStage>,
    ) -> (r: Self)
        requires
            closest_hit_shader.stage == ShaderStageKind::ClosestHit,
            intersection_shader.stage == ShaderStageKind::Intersection,
            any_hit_ok(cloned_option(any_hit_shader)),
        ensures
            r.wf(),
            r.closest_hit_shader == *closest_hit_shader,
            r.intersection_shader == *intersection_shader,
            r.any_hit_shader == cloned_option(any_hit_shader),
    {
        let any = match any_hit_shader {
            Some(a) => Some(a.clone()),
            None => None,
        };
        ProceduralHitGroup {
            closest_hit_shader: closest_hit_shader.clone(),
            intersection_shader: intersection_shader.clone(),
            any_hit_shader: any,
        }
    }
}

/// A hit group of either shape.
pub enum HitGroup {
    Triangles(TrianglesHitGroup),
    Procedural(ProceduralHitGroup),
}

impl Clone for HitGroup {
    fn clone(&self) -> (r: Self)
        ensures
            r == *self,
    {
        match self {
            HitGroup::Triangles(g) => HitGroup::Triangles(g.clone()),
            HitGroup::Procedural(g) => HitGroup::Procedural(g.clone()),
        }
    }
}

impl HitGroup {
    pub open spec fn wf(&self) -> bool {
        match self {
            HitGroup::Triangles(g) => g.wf(),
            HitGroup::Procedural(g) => g.wf(),
        }
    }

    pub open spec fn spec_has_any_hit(&self) -> bool {
        match self {
            HitGroup::Triangles(g) => g.any_hit_shader is Some,
            HitGroup::Procedural(g) => g.any_hit_shader is Some,
        }
    }

    pub open spec fn spec_has_intersection(&self) -> bool {
        self is Procedural
    }

    /// The group's stages in pipeline order: closest hit, then any hit if
    /// present, then intersection if present.
    pub open spec fn stages(&self) -> Seq<ShaderStage> {
        match self {
            HitGroup::Triangles(g) => match g.any_hit_shader {
                Some(a) => seq![g.closest_hit_shader, a],
                None => seq![g.closest_hit_shader],
            },
            HitGroup::Procedural(g) => match g.any_hit_shader {
                Some(a) => seq![g.closest_hit_shader, a, g.intersection_shader],
                None => seq![g.closest_hit_shader, g.intersection_shader],
            },
        }
    }

    pub fn shader_group_type(&self) -> (r: ShaderGroupType)
        ensures
            r == (if self is Triangles {
                ShaderGroupType::TrianglesHitGroup
            } else {
                ShaderGroupType::ProceduralHitGroup
            }),
    {
        match self {
            HitGroup::Triangles(_) => ShaderGroupType::TrianglesHitGroup,
            HitGroup::Procedural(_) => ShaderGroupType::ProceduralHitGroup,
        }
    }

    pub fn has_closest_hit_shader(&self) -> (r: bool)
        ensures
            r,
    {
        true
    }

    pub fn has_any_hit_shader(&self) -> (r: bool)
        ensures
            r == self.spec_has_any_hit(),
    {
        match self {
            HitGroup::Triangles(g) => g.any_hit_shader.is_some(),
            HitGroup::Procedural(g) => g.any_hit_shader.is_some(),
        }
    }

    pub fn has_intersection_shader(&self) -> (r: bool)
        ensures
            r == self.spec_has_intersection(),
    {
        match self {
            HitGroup::Triangles(_) => false,
            HitGroup::Procedural(_) => true,
        }
    }

    /// The group's stages in pipeline order.
    pub fn shader_stages(&self) -> (r: Vec<ShaderStage>)
        ensures
            r@ == self.stages(),
    {
        let mut v: Vec<ShaderStage> = Vec::new();
        match self {
            HitGroup::Triangles(g) => {
                v.push(g.closest_hit_shader.clone());
                if let Some(a) = &g.any_hit_shader {
                    v.push(a.clone());
                }
            },
            HitGroup::Procedural(g) => {
                v.push(g.closest_hit_shader.clone());
                if let Some(a) = &g.any_hit_shader {
                    v.push(a.clone());
                }
                v.push(g.intersection_shader.clone());
            },
        }
        assert(v@ =~= self.stages());
        v
    }
}

} // verus!

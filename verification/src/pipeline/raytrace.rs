//! Shader groups of a ray tracing pipeline.
use vstd::prelude::*;
use crate::vkraw::{
    SHADER_GROUP_GENERAL,
    SHADER_GROUP_PROCEDURAL_HIT_GROUP,
    SHADER_GROUP_TRIANGLES_HIT_GROUP,
    SHADER_STAGE_ANY_HIT_KHR,
    SHADER_STAGE_CALLABLE_KHR,
    SHADER_STAGE_CLOSEST_HIT_KHR,
    SHADER_STAGE_INTERSECTION_KHR,
    SHADER_STAGE_MISS_KHR,
    SHADER_STAGE_RAYGEN_KHR,
    SHADER_UNUSED_KHR,
};
use crate::pipeline::PipelineConfigError;

verus! {

/// The role that a shader plays in a ray tracing pipeline.
#[derive(Clone, Copy, PartialEq, Eq, Structural, Debug)]
pub enum ShaderKind {
    RayGen,
    Miss,
    Callable,
    ClosestHit,
    AnyHit,
    Intersection,
    /// A stage that no shader group takes.
    Other,
}

/// `stages` holds every bit of `flag`.
pub open spec fn has_stage(stages: u32, flag: u32) -> bool {
    stages & flag == flag
}

/// The role of a shader with stage flags `stage`: the first of ray
/// generation, miss, callable, closest hit, any hit and intersection that
/// the flags hold.
pub open spec fn kind_of_stage(stage: u32) -> ShaderKind {
    if has_stage(stage, SHADER_STAGE_RAYGEN_KHR) {
        ShaderKind::RayGen
    } else if has_stage(stage, SHADER_STAGE_MISS_KHR) {
        ShaderKind::Miss
    } else if has_stage(stage, SHADER_STAGE_CALLABLE_KHR) {
        ShaderKind::Callable
    } else if has_stage(stage, SHADER_STAGE_CLOSEST_HIT_KHR) {
        ShaderKind::ClosestHit
    } else if has_stage(stage, SHADER_STAGE_ANY_HIT_KHR) {
        ShaderKind::AnyHit
    } else if has_stage(stage, SHADER_STAGE_INTERSECTION_KHR) {
        ShaderKind::Intersection
    } else {
        ShaderKind::Other
    }
}

/// The positions, in order, of the shaders of kind `kind`.
pub open spec fn kind_indices(stages: Seq<u32>, kind: ShaderKind) -> Seq<u32>
    decreases stages.len(),
{
    if stages.len() == 0 {
        Seq::empty()
    } else {
        let before = kind_indices(stages.drop_last(), kind);
        if kind_of_stage(stages.last()) == kind {
            before.push((stages.len() - 1) as u32)
        } else {
            before
        }
    }
}

/// A `VkRayTracingShaderGroupCreateInfoKHR`: its type and the positions of its
/// shaders in the stage list (`VK_SHADER_UNUSED_KHR` where there is none).
#[derive(Clone, Copy, PartialEq, Eq, Structural, Debug)]
pub struct ShaderGroup {
    pub ty: i32,
    pub general_shader: u32,
    pub closest_hit_shader: u32,
    pub any_hit_shader: u32,
    pub intersection_shader: u32,
}

pub open spec fn general_group(idx: u32) -> ShaderGroup {
    ShaderGroup {
        ty: SHADER_GROUP_GENERAL,
        general_shader: idx,
        closest_hit_shader: SHADER_UNUSED_KHR,
        any_hit_shader: SHADER_UNUSED_KHR,
        intersection_shader: SHADER_UNUSED_KHR,
    }
}

pub open spec fn triangles_group(closest_hit: u32, any_hit: u32) -> ShaderGroup {
    ShaderGroup {
        ty: SHADER_GROUP_TRIANGLES_HIT_GROUP,
        general_shader: SHADER_UNUSED_KHR,
        closest_hit_shader: closest_hit,
        any_hit_shader: any_hit,
        intersection_shader: SHADER_UNUSED_KHR,
    }
}

pub open spec fn procedural_group(intersection: u32, any_hit: u32) -> ShaderGroup {
    ShaderGroup {
        ty: SHADER_GROUP_PROCEDURAL_HIT_GROUP,
        general_shader: SHADER_UNUSED_KHR,
        closest_hit_shader: SHADER_UNUSED_KHR,
        any_hit_shader: any_hit,
        intersection_shader: intersection,
    }
}

/// The `j`-th any hit shader, or `VK_SHADER_UNUSED_KHR` once they run out.
pub open spec fn any_hit_at(any_hits: Seq<u32>, j: int) -> u32 {
    if 0 <= j < any_hits.len() {
        any_hits[j]
    } else {
        SHADER_UNUSED_KHR
    }
}

/// The shader groups for `stages`: one general group for each ray generation,
/// then each miss, then each callable shader; one triangles hit group for each
/// closest hit shader; one procedural hit group for each intersection shader.
/// Hit groups take the any hit shaders in order, closest hit groups first,
/// for as long as there are any.
pub open spec fn shader_groups_of(stages: Seq<u32>) -> Seq<ShaderGroup> {
    let closest = kind_indices(stages, ShaderKind::ClosestHit);
    let any = kind_indices(stages, ShaderKind::AnyHit);
    let inter = kind_indices(stages, ShaderKind::Intersection);
    kind_indices(stages, ShaderKind::RayGen).map_values(|i: u32| general_group(i))
        + kind_indices(stages, ShaderKind::Miss).map_values(|i: u32| general_group(i))
        + kind_indices(stages, ShaderKind::Callable).map_values(|i: u32| general_group(i))
        + Seq::new(closest.len(), |j: int| triangles_group(closest[j], any_hit_at(any, j)))
        + Seq::new(
        inter.len(),
        |k: int| procedural_group(inter[k], any_hit_at(any, closest.len() + k)),
    )
}

/// What the library decides of a ray tracing pipeline.
#[derive(Clone, Debug, PartialEq, Eq)]
pub struct RaytracePipelinePlan {
    pub groups: Vec<ShaderGroup>,
    pub max_pipeline_ray_recursion_depth: u32,
}

fn shader_kind(stage: u32) -> (r: ShaderKind)
    ensures
        r == kind_of_stage(stage),
{
    if stage & SHADER_STAGE_RAYGEN_KHR == SHADER_STAGE_RAYGEN_KHR {
        ShaderKind::RayGen
    } else if stage & SHADER_STAGE_MISS_KHR == SHADER_STAGE_MISS_KHR {
        ShaderKind::Miss
    } else if stage & SHADER_STAGE_CALLABLE_KHR == SHADER_STAGE_CALLABLE_KHR {
        ShaderKind::Callable
    } else if stage & SHADER_STAGE_CLOSEST_HIT_KHR == SHADER_STAGE_CLOSEST_HIT_KHR {
        ShaderKind::ClosestHit
    } else if stage & SHADER_STAGE_ANY_HIT_KHR == SHADER_STAGE_ANY_HIT_KHR {
        ShaderKind::AnyHit
    } else if stage & SHADER_STAGE_INTERSECTION_KHR == SHADER_STAGE_INTERSECTION_KHR {
        ShaderKind::Intersection
    } else {
        ShaderKind::Other
    }
}

proof fn lemma_kind_indices_step(stages: Seq<u32>, i: int, kind: ShaderKind)
    requires
        0 <= i < stages.len(),
    ensures
        kind_indices(stages.take(i + 1), kind) == if kind_of_stage(stages[i]) == kind {
            kind_indices(stages.take(i), kind).push(i as u32)
        } else {
            kind_indices(stages.take(i), kind)
        },
{
    assert(stages.take(i + 1).drop_last() =~= stages.take(i));
}

/// Appends a general group for each of `indices`.
fn push_general_groups(groups: &mut Vec<ShaderGroup>, indices: &Vec<u32>)
    ensures
        final(groups)@ == old(groups)@ + indices@.map_values(|i: u32| general_group(i)),
{
    let mut j: usize = 0;
    while j < indices.len()
        invariant
            j <= indices@.len(),
            groups@ == old(groups)@ + indices@.take(j as int).map_values(|i: u32| general_group(i)),
        decreases indices@.len() - j,
    {
        groups.push(
            ShaderGroup {
                ty: SHADER_GROUP_GENERAL,
                general_shader: indices[j],
                closest_hit_shader: SHADER_UNUSED_KHR,
                any_hit_shader: SHADER_UNUSED_KHR,
                intersection_shader: SHADER_UNUSED_KHR,
            },
        );
        proof {
            assert(indices@.take(j + 1).map_values(|i: u32| general_group(i)) =~= indices@.take(
                j as int,
            ).map_values(|i: u32| general_group(i)).push(general_group(indices@[j as int])));
        }
        j = j + 1;
    }
    proof {
        assert(indices@.take(indices@.len() as int) =~= indices@);
    }
}

/// Builds the shader groups of a ray tracing pipeline from the stage flags of
/// its shaders, in order. Fails when there is no shader.
pub fn raytrace_pipeline_plan(stages: &Vec<u32>) -> (r: Result<RaytracePipelinePlan, PipelineConfigError>)
    requires
        stages@.len() <= u32::MAX,
    ensures
        stages@.len() == 0 ==> r == Err::<RaytracePipelinePlan, _>(PipelineConfigError::NoShaders),
        stages@.len() > 0 ==> (r matches Ok(plan) && plan.groups@ == shader_groups_of(stages@)
            && plan.max_pipeline_ray_recursion_depth == 1),
{
    if stages.len() == 0 {
        return Err(PipelineConfigError::NoShaders);
    }
    let mut raygen: Vec<u32> = Vec::new();
    let mut miss: Vec<u32> = Vec::new();
    let mut callable: Vec<u32> = Vec::new();
    let mut closest_hit: Vec<u32> = Vec::new();
    let mut any_hit: Vec<u32> = Vec::new();
    let mut intersection: Vec<u32> = Vec::new();
    let mut i: usize = 0;
    while i < stages.len()
        invariant
            i <= stages@.len() <= u32::MAX,
            raygen@ == kind_indices(stages@.take(i as int), ShaderKind::RayGen),
            miss@ == kind_indices(stages@.take(i as int), ShaderKind::Miss),
            callable@ == kind_indices(stages@.take(i as int), ShaderKind::Callable),
            closest_hit@ == kind_indices(stages@.take(i as int), ShaderKind::ClosestHit),
            any_hit@ == kind_indices(stages@.take(i as int), ShaderKind::AnyHit),
            intersection@ == kind_indices(stages@.take(i as int), ShaderKind::Intersection),
        decreases stages@.len() - i,
    {
        proof {
            lemma_kind_indices_step(stages@, i as int, ShaderKind::RayGen);
            lemma_kind_indices_step(stages@, i as int, ShaderKind::Miss);
            lemma_kind_indices_step(stages@, i as int, ShaderKind::Callable);
            lemma_kind_indices_step(stages@, i as int, ShaderKind::ClosestHit);
            lemma_kind_indices_step(stages@, i as int, ShaderKind::AnyHit);
            lemma_kind_indices_step(stages@, i as int, ShaderKind::Intersection);
        }
        let idx = i as u32;
        match shader_kind(stages[i]) {
            ShaderKind::RayGen => raygen.push(idx),
            ShaderKind::Miss => miss.push(idx),
            ShaderKind::Callable => callable.push(idx),
            ShaderKind::ClosestHit => closest_hit.push(idx),
            ShaderKind::AnyHit => any_hit.push(idx),
            ShaderKind::Intersection => intersection.push(idx),
            ShaderKind::Other => {},
        }
        i = i + 1;
    }
    proof {
        assert(stages@.take(stages@.len() as int) =~= stages@);
    }
    let mut groups: Vec<ShaderGroup> = Vec::new();
    push_general_groups(&mut groups, &raygen);
    push_general_groups(&mut groups, &miss);
    push_general_groups(&mut groups, &callable);
    let ghost general = groups@;
    let mut next_any: usize = 0;
    let mut j: usize = 0;
    while j < closest_hit.len()
        invariant
            j <= closest_hit@.len(),
            next_any == if j < any_hit@.len() { j } else { any_hit@.len() as usize },
            groups@ == general + Seq::new(
                j as nat,
                |k: int| triangles_group(closest_hit@[k], any_hit_at(any_hit@, k)),
            ),
        decreases closest_hit@.len() - j,
    {
        let any = if next_any < any_hit.len() {
            let a = any_hit[next_any];
            next_any = next_any + 1;
            a
        } else {
            SHADER_UNUSED_KHR
        };
        groups.push(
            ShaderGroup {
                ty: SHADER_GROUP_TRIANGLES_HIT_GROUP,
                general_shader: SHADER_UNUSED_KHR,
                closest_hit_shader: closest_hit[j],
                any_hit_shader: any,
                intersection_shader: SHADER_UNUSED_KHR,
            },
        );
        proof {
            assert(groups@ =~= general + Seq::new(
                (j + 1) as nat,
                |k: int| triangles_group(closest_hit@[k], any_hit_at(any_hit@, k)),
            ));
        }
        j = j + 1;
    }
    let ghost with_triangles = groups@;
    let mut k: usize = 0;
    while k < intersection.len()
        invariant
            k <= intersection@.len(),
            j == closest_hit@.len(),
            next_any == if j + k < any_hit@.len() { (j + k) as usize } else { any_hit@.len() as usize },
            groups@ == with_triangles + Seq::new(
                k as nat,
                |m: int| procedural_group(intersection@[m], any_hit_at(any_hit@, j + m)),
            ),
        decreases intersection@.len() - k,
    {
        let any = if next_any < any_hit.len() {
            let a = any_hit[next_any];
            next_any = next_any + 1;
            a
        } else {
            SHADER_UNUSED_KHR
        };
        groups.push(
            ShaderGroup {
                ty: SHADER_GROUP_PROCEDURAL_HIT_GROUP,
                general_shader: SHADER_UNUSED_KHR,
                closest_hit_shader: SHADER_UNUSED_KHR,
                any_hit_shader: any,
                intersection_shader: intersection[k],
            },
        );
        proof {
            assert(groups@ =~= with_triangles + Seq::new(
                (k + 1) as nat,
                |m: int| procedural_group(intersection@[m], any_hit_at(any_hit@, j + m)),
            ));
        }
        k = k + 1;
    }
    proof {
        assert(groups@ =~= shader_groups_of(stages@));
    }
    Ok(RaytracePipelinePlan { groups, max_pipeline_ray_recursion_depth: 1 })
}


proof fn lemma_kinds_partition(stages: Seq<u32>)
    ensures
        kind_indices(stages, ShaderKind::RayGen).len() + kind_indices(stages, ShaderKind::Miss).len()
            + kind_indices(stages, ShaderKind::Callable).len() + kind_indices(
            stages,
            ShaderKind::ClosestHit,
        ).len() + kind_indices(stages, ShaderKind::AnyHit).len() + kind_indices(
            stages,
            ShaderKind::Intersection,
        ).len() + kind_indices(stages, ShaderKind::Other).len() == stages.len(),
    decreases stages.len(),
{
    if stages.len() > 0 {
        lemma_kinds_partition(stages.drop_last());
    }
}

proof fn lemma_kind_indices_valid(stages: Seq<u32>, kind: ShaderKind, j: int)
    requires
        0 <= j < kind_indices(stages, kind).len(),
        stages.len() <= u32::MAX + 1,
    ensures
        kind_indices(stages, kind)[j] < stages.len(),
        kind_of_stage(stages[kind_indices(stages, kind)[j] as int]) == kind,
    decreases stages.len(),
{
    if stages.len() > 0 {
        let before = kind_indices(stages.drop_last(), kind);
        if j < before.len() {
            lemma_kind_indices_valid(stages.drop_last(), kind, j);
        }
    }
}

/// Every shader gets exactly one shader group except any hit shaders (which
/// join hit groups) and shaders of no ray tracing stage (which are left out).
pub proof fn law_one_group_per_shader(stages: Seq<u32>)
    ensures
        shader_groups_of(stages).len() == stages.len() - kind_indices(stages, ShaderKind::AnyHit).len()
            - kind_indices(stages, ShaderKind::Other).len(),
{
    lemma_kinds_partition(stages);
}

/// The general groups come first, one per ray generation, miss and callable
/// shader in that order, each naming a shader of that kind.
pub proof fn law_general_groups_name_their_shader(stages: Seq<u32>, g: int)
    requires
        stages.len() <= u32::MAX,
        0 <= g < kind_indices(stages, ShaderKind::RayGen).len() + kind_indices(stages, ShaderKind::Miss).len()
            + kind_indices(stages, ShaderKind::Callable).len(),
    ensures
        shader_groups_of(stages)[g].ty == SHADER_GROUP_GENERAL,
        shader_groups_of(stages)[g].general_shader < stages.len(),
        kind_of_stage(stages[shader_groups_of(stages)[g].general_shader as int]) != ShaderKind::Other,
{
    let rg = kind_indices(stages, ShaderKind::RayGen);
    let ms = kind_indices(stages, ShaderKind::Miss);
    let cl = kind_indices(stages, ShaderKind::Callable);
    let groups = shader_groups_of(stages);
    if g < rg.len() {
        lemma_kind_indices_valid(stages, ShaderKind::RayGen, g);
        assert(groups[g] == general_group(rg[g]));
    } else if g < rg.len() + ms.len() {
        lemma_kind_indices_valid(stages, ShaderKind::Miss, g - rg.len());
        assert(groups[g] == general_group(ms[g - rg.len()]));
    } else {
        lemma_kind_indices_valid(stages, ShaderKind::Callable, g - rg.len() - ms.len());
        assert(groups[g] == general_group(cl[g - rg.len() - ms.len()]));
    }
}

} // verus!

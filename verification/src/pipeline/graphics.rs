//! The vertex input of a graphics pipeline.
use vstd::prelude::*;
use crate::pipeline::attribute::Attribute;
use crate::pipeline::PipelineConfigError;
use crate::vkraw::{
    FORMAT_R32G32B32A32_SFLOAT,
    FORMAT_R32G32B32_SFLOAT,
    FORMAT_R32G32_SFLOAT,
    FORMAT_R32_SFLOAT,
    VERTEX_INPUT_RATE_VERTEX,
};

verus! {

/// A `VkVertexInputAttributeDescription`.
#[derive(Clone, Copy, Debug, PartialEq, Eq, Structural)]
pub struct VertexInputAttribute {
    pub location: u32,
    pub binding: u32,
    pub format: i32,
    pub offset: u32,
}

/// The vertex input of a graphics pipeline: one binding, per vertex.
#[derive(Clone, Debug, PartialEq, Eq)]
pub struct VertexInputPlan {
    pub binding: u32,
    pub stride: u32,
    pub input_rate: i32,
    pub attributes: Vec<VertexInputAttribute>,
}

/// The format of an attribute of `size` bytes: one to four 32-bit floats,
/// three for any other size.
pub open spec fn attribute_format_spec(size: usize) -> i32 {
    if size == 4 {
        FORMAT_R32_SFLOAT
    } else if size == 8 {
        FORMAT_R32G32_SFLOAT
    } else if size == 12 {
        FORMAT_R32G32B32_SFLOAT
    } else if size == 16 {
        FORMAT_R32G32B32A32_SFLOAT
    } else {
        FORMAT_R32G32B32_SFLOAT
    }
}

/// The vertex stride: the sum of the attribute sizes, each taken as a `u32`.
pub open spec fn stride_spec(attributes: Seq<Attribute>) -> int
    decreases attributes.len(),
{
    if attributes.len() == 0 {
        0
    } else {
        stride_spec(attributes.drop_last()) + (attributes.last().size as u32)
    }
}

/// The description of the attribute at `location`.
pub open spec fn attribute_description_spec(location: int, a: Attribute) -> VertexInputAttribute {
    VertexInputAttribute {
        location: location as u32,
        binding: 0,
        format: attribute_format_spec(a.size),
        offset: a.offset as u32,
    }
}

pub fn attribute_format(size: usize) -> (r: i32)
    ensures
        r == attribute_format_spec(size),
{
    match size {
        4 => FORMAT_R32_SFLOAT,
        8 => FORMAT_R32G32_SFLOAT,
        12 => FORMAT_R32G32B32_SFLOAT,
        16 => FORMAT_R32G32B32A32_SFLOAT,
        _ => FORMAT_R32G32B32_SFLOAT,
    }
}

proof fn lemma_stride_prefix_bounded(attributes: Seq<Attribute>, i: int)
    requires
        0 <= i <= attributes.len(),
    ensures
        stride_spec(attributes.take(i)) <= stride_spec(attributes),
    decreases attributes.len(),
{
    if i < attributes.len() {
        assert(attributes.drop_last().take(i) =~= attributes.take(i));
        lemma_stride_prefix_bounded(attributes.drop_last(), i);
    } else {
        assert(attributes.take(i) =~= attributes);
    }
}

/// The vertex input of a graphics pipeline with vertices laid out as
/// `attributes` (one binding, attribute `i` at location `i`); refused when
/// the pipeline has no shader.
pub fn graphics_vertex_input(shader_count: usize, attributes: &Vec<Attribute>) -> (r: Result<VertexInputPlan, PipelineConfigError>)
    requires
        shader_count > 0 ==> stride_spec(attributes@) <= u32::MAX,
        shader_count > 0 ==> attributes@.len() <= u32::MAX,
    ensures
        shader_count == 0 ==> r == Err::<VertexInputPlan, _>(PipelineConfigError::NoShaders),
        shader_count > 0 ==> (r matches Ok(plan) && {
            &&& plan.binding == 0
            &&& plan.stride == stride_spec(attributes@)
            &&& plan.input_rate == VERTEX_INPUT_RATE_VERTEX
            &&& plan.attributes@ == Seq::new(
                attributes@.len(),
                |i: int| attribute_description_spec(i, attributes@[i]),
            )
        }),
{
    if shader_count == 0 {
        return Err(PipelineConfigError::NoShaders);
    }
    let mut stride: u32 = 0;
    let mut descriptions: Vec<VertexInputAttribute> = Vec::new();
    let mut i: usize = 0;
    while i < attributes.len()
        invariant
            i <= attributes@.len() <= u32::MAX,
            stride_spec(attributes@) <= u32::MAX,
            stride == stride_spec(attributes@.take(i as int)),
            descriptions@ == Seq::new(
                i as nat,
                |k: int| attribute_description_spec(k, attributes@[k]),
            ),
        decreases attributes@.len() - i,
    {
        let a = attributes[i];
        proof {
            assert(attributes@.take(i + 1).drop_last() =~= attributes@.take(i as int));
            lemma_stride_prefix_bounded(attributes@, i + 1);
        }
        stride = stride + a.size as u32;
        descriptions.push(
            VertexInputAttribute {
                location: i as u32,
                binding: 0,
                format: attribute_format(a.size),
                offset: a.offset as u32,
            },
        );
        proof {
            assert(descriptions@ =~= Seq::new(
                (i + 1) as nat,
                |k: int| attribute_description_spec(k, attributes@[k]),
            ));
        }
        i = i + 1;
    }
    proof {
        assert(attributes@.take(attributes@.len() as int) =~= attributes@);
    }
    Ok(
        VertexInputPlan {
            binding: 0,
            stride,
            input_rate: VERTEX_INPUT_RATE_VERTEX,
            attributes: descriptions,
        },
    )
}

/// A `VkRect2D`: a scissor rectangle.
#[derive(Clone, Copy, Debug, PartialEq, Eq, Structural)]
pub struct Scissor {
    pub x: i32,
    pub y: i32,
    pub width: u32,
    pub height: u32,
}

/// Whether a graphics pipeline given `viewports` viewports and `scissors`
/// scissors renders to the whole target instead: when either list is empty.
pub fn uses_whole_target(viewports: usize, scissors: usize) -> (r: bool)
    ensures
        r == (viewports == 0 || scissors == 0),
{
    viewports == 0 || scissors == 0
}

/// The scissor that covers a whole target of `extent`.
pub fn whole_target_scissor(extent: [u32; 2]) -> (r: Scissor)
    ensures
        r == (Scissor { x: 0, y: 0, width: extent[0], height: extent[1] }),
{
    Scissor { x: 0, y: 0, width: extent[0], height: extent[1] }
}

} // verus!

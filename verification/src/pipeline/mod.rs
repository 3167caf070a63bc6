//! Pipelines.
pub mod attribute;
pub mod descriptor;
pub mod graphics;
pub mod raytrace;

use vstd::prelude::*;

verus! {

/// Why the library refuses to build a pipeline.
#[derive(Clone, Copy, PartialEq, Eq, Structural, Debug)]
pub enum PipelineConfigError {
    /// The pipeline was given no shader.
    NoShaders,
}

} // verus!

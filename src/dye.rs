//! Paint sources: flat colors, gradients and patterns.
use vstd::prelude::*;
use crate::color::{Color, with_scaled_alpha};

verus! {

/// A gradient object held by the host, known here by its handle.
#[derive(Clone, Copy, Debug, PartialEq, Eq, Structural)]
pub struct GradientRef {
    pub id: u64,
}

/// A pattern object held by the host, known here by its handle.
#[derive(Clone, Copy, Debug, PartialEq, Eq, Structural)]
pub struct PatternRef {
    pub id: u64,
}

/// A source of paint for fills and strokes.
#[derive(Clone, Copy, Debug, PartialEq, Eq, Structural)]
pub enum Dye {
    Color(Color),
    Gradient(GradientRef),
    Pattern(PatternRef),
}

/// A shader that the backend obtains from a gradient or a pattern.
#[derive(Clone, Copy, Debug, PartialEq, Eq, Structural)]
pub enum ShaderSource {
    Gradient(GradientRef),
    Pattern(PatternRef),
}

/// What a dye contributes to a paint: a flat color or a shader.
#[derive(Clone, Copy, Debug, PartialEq, Eq, Structural)]
pub enum DyeContribution {
    Solid(Color),
    Shader(ShaderSource),
}

/// A color dye contributes its color with the global alpha applied; the
/// others contribute their shader unchanged.
pub open spec fn contribution_of(dye: Dye, global_alpha: u16) -> DyeContribution {
    match dye {
        Dye::Color(c) => DyeContribution::Solid(with_scaled_alpha(c, global_alpha)),
        Dye::Gradient(g) => DyeContribution::Shader(ShaderSource::Gradient(g)),
        Dye::Pattern(p) => DyeContribution::Shader(ShaderSource::Pattern(p)),
    }
}

impl Dye {
    /// Resolves the dye under the global alpha `global_alpha`.
    pub fn contribution(&self, global_alpha: u16) -> (r: DyeContribution)
        ensures
            r == contribution_of(*self, global_alpha),
    {
        match self {
            Dye::Color(c) => DyeContribution::Solid(c.with_alpha_scaled(global_alpha)),
            Dye::Gradient(g) => DyeContribution::Shader(ShaderSource::Gradient(*g)),
            Dye::Pattern(p) => DyeContribution::Shader(ShaderSource::Pattern(*p)),
        }
    }
}

} // verus!

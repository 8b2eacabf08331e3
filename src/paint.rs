//! Resolved paints as handed to the backend.
use vstd::prelude::*;
use crate::color::Color;
use crate::dye::{DyeContribution, ShaderSource};
use crate::scalar::{Point, Scalar};
use crate::style::{BlendMode, FilterQuality, PaintStyle};

verus! {

/// Bit pattern of the single-precision value 4.0.
pub const FOUR_BITS: u32 = 0x4080_0000;

/// Bit pattern of the single-precision value 10.0.
pub const TEN_BITS: u32 = 0x4120_0000;

/// Bit pattern of the single-precision value 1.0.
pub const ONE_BITS: u32 = 0x3f80_0000;

/// The paint settings that a state carries from call to call.
#[derive(Clone, Copy, Debug, PartialEq, Eq, Structural)]
pub struct PaintConfig {
    pub anti_alias: bool,
    pub stroke_width: Scalar,
    pub stroke_miter: Scalar,
    pub filter_quality: FilterQuality,
    pub blend_mode: BlendMode,
}

/// A dash pattern: interval lengths and the phase at which it starts.
#[derive(Clone, Debug)]
pub struct DashEffect {
    pub intervals: Vec<Scalar>,
    pub phase: Scalar,
}

/// A filter that draws only the drop shadow of what is painted.
///
/// The backend blurs with a standard deviation of half of `blur` on both axes.
#[derive(Clone, Copy, Debug, PartialEq, Eq, Structural)]
pub struct DropShadow {
    pub offset: Point,
    pub blur: Scalar,
    pub color: Color,
}

/// A fully resolved paint.
#[derive(Clone, Debug)]
pub struct Paint {
    pub config: PaintConfig,
    pub style: PaintStyle,
    pub color: Color,
    pub shader: Option<ShaderSource>,
    pub dash: Option<DashEffect>,
    pub shadow_filter: Option<DropShadow>,
}

/// A copy of a list of scalars.
pub fn copy_scalars(v: &Vec<Scalar>) -> (r: Vec<Scalar>)
    ensures
        r@ == v@,
{
    let mut out: Vec<Scalar> = Vec::new();
    let n = v.len();
    for i in 0..n
        invariant
            n == v@.len(),
            out@ == v@.subrange(0, i as int),
    {
        out.push(v[i]);
        proof {
            assert(out@ =~= v@.subrange(0, i + 1));
        }
    }
    proof {
        assert(out@ =~= v@);
    }
    out
}

impl DashEffect {
    /// A copy of this dash effect.
    pub fn duplicate(&self) -> (r: DashEffect)
        ensures
            r.intervals@ == self.intervals@,
            r.phase == self.phase,
    {
        DashEffect { intervals: copy_scalars(&self.intervals), phase: self.phase }
    }
}

/// Whether two optional dash effects have the same intervals and phase.
pub open spec fn same_dash(a: Option<DashEffect>, b: Option<DashEffect>) -> bool {
    match (a, b) {
        (None, None) => true,
        (Some(x), Some(y)) => x.intervals@ == y.intervals@ && x.phase == y.phase,
        _ => false,
    }
}

impl Paint {
    /// Whether two paints agree in every setting.
    pub open spec fn same_as(self, other: Paint) -> bool {
        &&& self.config == other.config
        &&& self.style == other.style
        &&& self.color == other.color
        &&& self.shader == other.shader
        &&& same_dash(self.dash, other.dash)
        &&& self.shadow_filter == other.shadow_filter
    }

    /// A plain paint: no antialiasing, hairline stroke, miter limit 4,
    /// no resampling, source-over blending, opaque black, nothing attached.
    pub fn plain() -> (r: Paint)
        ensures
            is_plain_paint(r, BlendMode::SrcOver),
    {
        Paint {
            config: PaintConfig {
                anti_alias: false,
                stroke_width: Scalar::zero(),
                stroke_miter: Scalar::from_bits(FOUR_BITS),
                filter_quality: FilterQuality::Disabled,
                blend_mode: BlendMode::SrcOver,
            },
            style: PaintStyle::Fill,
            color: Color::black(),
            shader: None,
            dash: None,
            shadow_filter: None,
        }
    }

    /// A paint with the given settings, style and dye contribution.
    ///
    /// A solid contribution sets the color and no shader; a shader
    /// contribution sets the shader and keeps the color opaque black.
    pub fn from_dye(config: PaintConfig, style: PaintStyle, dye: DyeContribution) -> (r: Paint)
        ensures
            r.config == config,
            r.style == style,
            r.color == color_of_contribution(dye),
            r.shader == shader_of_contribution(dye),
            r.dash.is_none(),
            r.shadow_filter.is_none(),
    {
        let (color, shader) = match dye {
            DyeContribution::Solid(c) => (c, None),
            DyeContribution::Shader(s) => (Color::black(), Some(s)),
        };
        Paint { config, style, color, shader, dash: None, shadow_filter: None }
    }

    /// A copy of this paint.
    pub fn duplicate(&self) -> (r: Paint)
        ensures
            r.same_as(*self),
    {
        let dash = match &self.dash {
            Some(d) => Some(d.duplicate()),
            None => None,
        };
        Paint {
            config: self.config,
            style: self.style,
            color: self.color,
            shader: self.shader,
            dash,
            shadow_filter: self.shadow_filter,
        }
    }
}

/// The settings of a plain paint: no antialiasing, hairline stroke, miter
/// limit 4, no resampling, source-over blending.
pub open spec fn plain_config() -> PaintConfig {
    PaintConfig {
        anti_alias: false,
        stroke_width: Scalar { bits: 0 },
        stroke_miter: Scalar { bits: FOUR_BITS },
        filter_quality: FilterQuality::Disabled,
        blend_mode: BlendMode::SrcOver,
    }
}

/// `p` is the plain paint with blend mode `mode`: plain settings, filled,
/// opaque black, with no shader, dash or shadow filter.
pub open spec fn is_plain_paint(p: Paint, mode: BlendMode) -> bool {
    &&& p.config == (PaintConfig { blend_mode: mode, ..plain_config() })
    &&& p.style == PaintStyle::Fill
    &&& p.color == Color::black_spec()
    &&& p.shader.is_none()
    &&& p.dash.is_none()
    &&& p.shadow_filter.is_none()
}

pub open spec fn color_of_contribution(dye: DyeContribution) -> Color {
    match dye {
        DyeContribution::Solid(c) => c,
        DyeContribution::Shader(_) => Color::black_spec(),
    }
}

pub open spec fn shader_of_contribution(dye: DyeContribution) -> Option<ShaderSource> {
    match dye {
        DyeContribution::Solid(_) => None,
        DyeContribution::Shader(s) => Some(s),
    }
}

} // verus!

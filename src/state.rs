//! The style state that save and restore snapshot.
use vstd::prelude::*;
use crate::color::Color;
use crate::dye::Dye;
use crate::paint::{copy_scalars, PaintConfig};
use crate::scalar::{Point, Scalar};
use crate::style::{Baseline, BlendMode, FilterQuality, FontStyle, TextAlign, TextDirection};

verus! {

/// An OpenType feature setting: a four-letter tag and its value.
#[derive(Clone, Debug)]
pub struct FontFeature {
    pub tag: String,
    pub value: i32,
}

/// Character-level text style.
#[derive(Clone, Debug)]
pub struct CharStyle {
    pub font_size: Scalar,
    pub font_families: Vec<String>,
    pub font_style: FontStyle,
    pub font_features: Vec<FontFeature>,
}

/// Paragraph-level text style.
#[derive(Clone, Copy, Debug, PartialEq, Eq, Structural)]
pub struct ParagraphStyle {
    pub align: TextAlign,
    pub direction: TextDirection,
}

/// A parsed font description, ready to be matched against installed faces.
#[derive(Clone, Debug)]
pub struct FontSpec {
    pub families: Vec<String>,
    pub style: FontStyle,
    pub size: Scalar,
    pub variant: String,
    pub features: Vec<FontFeature>,
    pub canonical: String,
}

/// Every style attribute of a rendering context.
///
/// `global_alpha` is a coverage out of 65535 that scales the alpha of every
/// resolved color.
#[derive(Clone, Debug)]
pub struct State {
    pub paint: PaintConfig,
    pub fill_style: Dye,
    pub stroke_style: Dye,
    pub shadow_blur: Scalar,
    pub shadow_color: Color,
    pub shadow_offset: Point,
    pub global_alpha: u16,
    pub stroke_width: Scalar,
    pub line_dash_offset: Scalar,
    pub line_dash_list: Vec<Scalar>,
    pub global_composite_operation: BlendMode,
    pub image_filter_quality: FilterQuality,
    pub image_smoothing_enabled: bool,
    pub font: String,
    pub font_variant: String,
    pub font_features: Vec<String>,
    pub char_style: CharStyle,
    pub graf_style: ParagraphStyle,
    pub text_baseline: Baseline,
    pub text_tracking: i32,
}

/// A copy of a list of strings.
pub fn copy_strings(v: &Vec<String>) -> (r: Vec<String>)
    ensures
        r@ == v@,
{
    let mut out: Vec<String> = Vec::new();
    let n = v.len();
    for i in 0..n
        invariant
            n == v@.len(),
            out@ == v@.subrange(0, i as int),
    {
        out.push(v[i].clone());
        proof {
            assert(out@ =~= v@.subrange(0, i + 1));
        }
    }
    proof {
        assert(out@ =~= v@);
    }
    out
}

/// A copy of a list of feature settings.
pub fn copy_features(v: &Vec<FontFeature>) -> (r: Vec<FontFeature>)
    ensures
        r@ == v@,
{
    let mut out: Vec<FontFeature> = Vec::new();
    let n = v.len();
    for i in 0..n
        invariant
            n == v@.len(),
            out@ == v@.subrange(0, i as int),
    {
        let f = FontFeature { tag: v[i].tag.clone(), value: v[i].value };
        out.push(f);
        proof {
            assert(out@ =~= v@.subrange(0, i + 1));
        }
    }
    proof {
        assert(out@ =~= v@);
    }
    out
}

impl CharStyle {
    pub open spec fn same_as(self, o: CharStyle) -> bool {
        &&& self.font_size == o.font_size
        &&& self.font_families@ == o.font_families@
        &&& self.font_style == o.font_style
        &&& self.font_features@ == o.font_features@
    }

    /// A copy of this style.
    pub fn duplicate(&self) -> (r: CharStyle)
        ensures
            r.same_as(*self),
    {
        CharStyle {
            font_size: self.font_size,
            font_families: copy_strings(&self.font_families),
            font_style: self.font_style,
            font_features: copy_features(&self.font_features),
        }
    }
}

impl State {
    /// Whether two states agree in every attribute.
    pub open spec fn same_as(self, o: State) -> bool {
        &&& self.paint == o.paint
        &&& self.fill_style == o.fill_style
        &&& self.stroke_style == o.stroke_style
        &&& self.shadow_blur == o.shadow_blur
        &&& self.shadow_color == o.shadow_color
        &&& self.shadow_offset == o.shadow_offset
        &&& self.global_alpha == o.global_alpha
        &&& self.stroke_width == o.stroke_width
        &&& self.line_dash_offset == o.line_dash_offset
        &&& self.line_dash_list@ == o.line_dash_list@
        &&& self.global_composite_operation == o.global_composite_operation
        &&& self.image_filter_quality == o.image_filter_quality
        &&& self.image_smoothing_enabled == o.image_smoothing_enabled
        &&& self.font@ == o.font@
        &&& self.font_variant@ == o.font_variant@
        &&& self.font_features@ == o.font_features@
        &&& self.char_style.same_as(o.char_style)
        &&& self.graf_style == o.graf_style
        &&& self.text_baseline == o.text_baseline
        &&& self.text_tracking == o.text_tracking
    }

    /// A deep copy of this state, sharing nothing with it.
    pub fn snapshot(&self) -> (r: State)
        ensures
            r.same_as(*self),
    {
        State {
            paint: self.paint,
            fill_style: self.fill_style,
            stroke_style: self.stroke_style,
            shadow_blur: self.shadow_blur,
            shadow_color: self.shadow_color,
            shadow_offset: self.shadow_offset,
            global_alpha: self.global_alpha,
            stroke_width: self.stroke_width,
            line_dash_offset: self.line_dash_offset,
            line_dash_list: copy_scalars(&self.line_dash_list),
            global_composite_operation: self.global_composite_operation,
            image_filter_quality: self.image_filter_quality,
            image_smoothing_enabled: self.image_smoothing_enabled,
            font: self.font.clone(),
            font_variant: self.font_variant.clone(),
            font_features: copy_strings(&self.font_features),
            char_style: self.char_style.duplicate(),
            graf_style: self.graf_style,
            text_baseline: self.text_baseline,
            text_tracking: self.text_tracking,
        }
    }
}

} // verus!

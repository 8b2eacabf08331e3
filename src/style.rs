//! Enumerated style settings.
use vstd::prelude::*;

verus! {

/// How a shape's pixels combine with what is already on the surface.
#[derive(Clone, Copy, Debug, PartialEq, Eq, Structural)]
pub enum BlendMode {
    Clear,
    Src,
    Dst,
    SrcOver,
    DstOver,
    SrcIn,
    DstIn,
    SrcOut,
    DstOut,
    SrcATop,
    DstATop,
    Xor,
    Plus,
    Modulate,
    Screen,
    Overlay,
    Darken,
    Lighten,
    ColorDodge,
    ColorBurn,
    HardLight,
    SoftLight,
    Difference,
    Exclusion,
    Multiply,
    Hue,
    Saturation,
    Color,
    Luminosity,
}

/// Resampling quality used when images are scaled.
#[derive(Clone, Copy, Debug, PartialEq, Eq, Structural)]
pub enum FilterQuality {
    Disabled,
    Low,
    Medium,
    High,
}

/// Whether a paint fills the interior of a shape or strokes its outline.
#[derive(Clone, Copy, Debug, PartialEq, Eq, Structural)]
pub enum PaintStyle {
    Fill,
    Stroke,
}

/// Rule that decides which points lie inside a self-intersecting path.
#[derive(Clone, Copy, Debug, PartialEq, Eq, Structural)]
pub enum FillRule {
    NonZero,
    EvenOdd,
}

/// Horizontal alignment of a line of text.
#[derive(Clone, Copy, Debug, PartialEq, Eq, Structural)]
pub enum TextAlign {
    Left,
    Right,
    Center,
    Justify,
    Start,
    End,
}

/// Writing direction of a paragraph.
#[derive(Clone, Copy, Debug, PartialEq, Eq, Structural)]
pub enum TextDirection {
    Rtl,
    Ltr,
}

/// The vertical anchor that a text position refers to.
#[derive(Clone, Copy, Debug, PartialEq, Eq, Structural)]
pub enum Baseline {
    Top,
    Hanging,
    Middle,
    Alphabetic,
    Ideographic,
    Bottom,
}

/// Slant of a typeface.
#[derive(Clone, Copy, Debug, PartialEq, Eq, Structural)]
pub enum FontSlant {
    Upright,
    Italic,
    Oblique,
}

/// Weight, width and slant of a typeface.
#[derive(Clone, Copy, Debug, PartialEq, Eq, Structural)]
pub struct FontStyle {
    pub weight: u16,
    pub width: u16,
    pub slant: FontSlant,
}

/// Fraction of the layout width by which a paragraph is shifted so that its
/// aligned edge lands on the requested x coordinate.
#[derive(Clone, Copy, Debug, PartialEq, Eq, Structural)]
pub enum AlignFactor {
    Zero,
    Half,
    One,
}

/// The alignment factor of an alignment under a writing direction.
pub open spec fn align_factor_of(align: TextAlign, dir: TextDirection) -> AlignFactor {
    match align {
        TextAlign::Left | TextAlign::Justify => AlignFactor::Zero,
        TextAlign::Center => AlignFactor::Half,
        TextAlign::Right => AlignFactor::One,
        TextAlign::Start => if dir == TextDirection::Ltr {
            AlignFactor::Zero
        } else {
            AlignFactor::One
        },
        TextAlign::End => if dir == TextDirection::Ltr {
            AlignFactor::One
        } else {
            AlignFactor::Zero
        },
    }
}

/// Computes the alignment factor of an alignment under a writing direction.
pub fn alignment_factor(align: TextAlign, dir: TextDirection) -> (r: AlignFactor)
    ensures
        r == align_factor_of(align, dir),
{
    match align {
        TextAlign::Left | TextAlign::Justify => AlignFactor::Zero,
        TextAlign::Center => AlignFactor::Half,
        TextAlign::Right => AlignFactor::One,
        TextAlign::Start => match dir {
            TextDirection::Ltr => AlignFactor::Zero,
            TextDirection::Rtl => AlignFactor::One,
        },
        TextAlign::End => match dir {
            TextDirection::Ltr => AlignFactor::One,
            TextDirection::Rtl => AlignFactor::Zero,
        },
    }
}

} // verus!

verus! {

/// The font metric by which a baseline mode's anchor lies from the
/// alphabetic baseline: the y offset added to the anchor point.
#[derive(Clone, Copy, Debug, PartialEq, Eq, Structural)]
pub enum BaselineShift {
    /// No offset.
    Zero,
    /// Minus the font's ascent (the ascent is negative, so downwards).
    NegAscent,
    /// The font's cap height.
    CapHeight,
    /// Half of the font's cap height.
    HalfCapHeight,
    /// Minus the font's descent.
    NegDescent,
}

/// The offset that each baseline mode calls for.
pub open spec fn baseline_shift_of(b: Baseline) -> BaselineShift {
    match b {
        Baseline::Top => BaselineShift::NegAscent,
        Baseline::Hanging => BaselineShift::CapHeight,
        Baseline::Middle => BaselineShift::HalfCapHeight,
        Baseline::Alphabetic => BaselineShift::Zero,
        Baseline::Ideographic | Baseline::Bottom => BaselineShift::NegDescent,
    }
}

/// Computes the offset that a baseline mode calls for.
pub fn baseline_shift(b: Baseline) -> (r: BaselineShift)
    ensures
        r == baseline_shift_of(b),
{
    match b {
        Baseline::Top => BaselineShift::NegAscent,
        Baseline::Hanging => BaselineShift::CapHeight,
        Baseline::Middle => BaselineShift::HalfCapHeight,
        Baseline::Alphabetic => BaselineShift::Zero,
        Baseline::Ideographic | Baseline::Bottom => BaselineShift::NegDescent,
    }
}

} // verus!

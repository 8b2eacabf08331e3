//! The rendering context: style state, its stack, the path buffer, and the
//! translation of drawing requests into backend commands.
use vstd::prelude::*;
use crate::color::{Color, with_scaled_alpha};
use crate::dye::{Dye, contribution_of};
use crate::paint::{
    DashEffect, DropShadow, Paint, PaintConfig, copy_scalars, color_of_contribution,
    is_plain_paint, shader_of_contribution, same_dash, ONE_BITS, TEN_BITS,
};
use crate::path::{Path, PathVerb};
use crate::scalar::{Point, Rect, Scalar};
use crate::state::{CharStyle, FontFeature, FontSpec, ParagraphStyle, State, copy_features};
use crate::style::{
    AlignFactor, Baseline, BaselineShift, BlendMode, FillRule, FilterQuality, FontSlant, FontStyle, PaintStyle,
    TextAlign, TextDirection, align_factor_of, alignment_factor, baseline_shift,
    baseline_shift_of,
};

verus! {

/// Bit pattern of the single-precision value 100000.0: the line width that
/// text is laid out against, wide enough that no line ever breaks.
pub const GALLEY_BITS: u32 = 0x47c3_5000;

/// A paragraph ready to be laid out on a single line and painted.
#[derive(Clone, Debug)]
pub struct TextRun {
    pub text: String,
    pub char_style: CharStyle,
    pub foreground: Paint,
    pub shadow: Option<DropShadow>,
    pub paragraph: ParagraphStyle,
    pub layout_width: Scalar,
}

/// What the crop-and-resize image filter is asked to produce.
#[derive(Clone, Copy, Debug, PartialEq, Eq, Structural)]
pub struct ImageFilterRequest {
    pub src: Rect,
    pub resize: Rect,
    pub quality: FilterQuality,
}

/// One operation for the backend surface, performed in list order.
#[derive(Clone, Debug)]
pub enum Command {
    /// Push the surface's transform and clip.
    Save,
    /// Pop the surface's transform and clip.
    Restore,
    /// Set the surface's transform to the identity.
    ResetMatrix,
    /// Draw the context's current path with the paint.
    DrawPath(Paint),
    /// Intersect the clip with the path under the fill rule, antialiased.
    ClipPath(Path, FillRule),
    /// Draw the rectangle with the paint.
    DrawRect(Rect, Paint),
    /// Draw the filtered image at the origin moved by the correction that
    /// the filter reported.
    DrawImage(Point, Point, Paint),
    /// Copy the source rectangle of the image to the destination rectangle,
    /// sampling strictly inside the source.
    BlitImage(Rect, Rect, Paint),
    /// Paint the paragraph with its anchor at the point: its alphabetic
    /// baseline lies below the point by the baseline offset, and it is
    /// shifted left by its layout width times the factor.
    DrawParagraph(TextRun, Point, BaselineShift, AlignFactor),
}

/// The context of one canvas.
pub struct Context2D {
    /// Whether a backend surface is attached; without one nothing is drawn.
    pub has_surface: bool,
    pub path: Path,
    pub state_stack: Vec<State>,
    pub state: State,
}

/// The shadow that the state calls for: none when the shadow color, with
/// the global alpha applied, is transparent, or when both the blur and the
/// offset are zero.
pub open spec fn shadow_of(s: State) -> Option<DropShadow> {
    let c = with_scaled_alpha(s.shadow_color, s.global_alpha);
    if c.a > 0 && !(s.shadow_blur.is_zero_spec() && s.shadow_offset.is_zero_spec()) {
        Some(DropShadow { offset: s.shadow_offset, blur: s.shadow_blur, color: c })
    } else {
        None
    }
}

/// `p` is `base` with the drop-shadow filter `sh` installed.
pub open spec fn is_shadow_paint(p: Paint, base: Paint, sh: DropShadow) -> bool {
    &&& p.config == base.config
    &&& p.style == base.style
    &&& p.color == base.color
    &&& p.shader == base.shader
    &&& same_dash(p.dash, base.dash)
    &&& p.shadow_filter == Some(sh)
}

/// `p` is what the fill dye of `s` resolves to.
pub open spec fn is_fill_paint(s: State, p: Paint) -> bool {
    let d = contribution_of(s.fill_style, s.global_alpha);
    &&& p.config == s.paint
    &&& p.style == PaintStyle::Fill
    &&& p.color == color_of_contribution(d)
    &&& p.shader == shader_of_contribution(d)
    &&& p.dash.is_none()
    &&& p.shadow_filter.is_none()
}

/// `p` is what the stroke dye of `s` resolves to, with the dash list of `s`
/// installed exactly when it is not empty.
pub open spec fn is_stroke_paint(s: State, p: Paint) -> bool {
    let d = contribution_of(s.stroke_style, s.global_alpha);
    &&& p.config == s.paint
    &&& p.style == PaintStyle::Stroke
    &&& p.color == color_of_contribution(d)
    &&& p.shader == shader_of_contribution(d)
    &&& p.shadow_filter.is_none()
    &&& if s.line_dash_list@.len() == 0 {
        p.dash.is_none()
    } else {
        &&& p.dash.is_some()
        &&& p.dash.unwrap().intervals@ == s.line_dash_list@
        &&& p.dash.unwrap().phase == s.line_dash_offset
    }
}

/// `p` is the paint that images are drawn with under `s`: the base settings,
/// filled, in black that carries the global alpha.
pub open spec fn is_image_paint(s: State, p: Paint) -> bool {
    &&& p.config == s.paint
    &&& p.style == PaintStyle::Fill
    &&& p.color == with_scaled_alpha(Color::black_spec(), s.global_alpha)
    &&& p.shader.is_none()
    &&& p.dash.is_none()
    &&& p.shadow_filter.is_none()
}

/// The commands of a shaded draw: with no surface none; otherwise the
/// shadow draw, when the state calls for a shadow, then the primary draw.
pub open spec fn is_shaded_draw(
    has_surface: bool,
    s: State,
    cmds: Seq<Command>,
    primary: Command,
    paint_of: spec_fn(Command) -> Option<Paint>,
    base: Paint,
    same_place: spec_fn(Command) -> bool,
) -> bool {
    if !has_surface {
        cmds.len() == 0
    } else {
        match shadow_of(s) {
            None => cmds == seq![primary],
            Some(sh) => {
                &&& cmds.len() == 2
                &&& cmds[1] == primary
                &&& same_place(cmds[0])
                &&& paint_of(cmds[0]) is Some
                &&& is_shadow_paint(paint_of(cmds[0]).unwrap(), base, sh)
            },
        }
    }
}

/// `c1` is `c0` after a save: the state is pushed as a snapshot.
pub open spec fn pushed(c0: Context2D, c1: Context2D) -> bool {
    &&& c1.state == c0.state
    &&& c1.path == c0.path
    &&& c1.has_surface == c0.has_surface
    &&& c1.state_stack@.len() == c0.state_stack@.len() + 1
    &&& c1.state_stack@.drop_last() == c0.state_stack@
    &&& c1.state_stack@.last().same_as(c0.state)
}

/// `c1` is `c0` after a restore: the latest snapshot, if any, becomes the
/// state; with no snapshot nothing changes.
pub open spec fn popped(c0: Context2D, c1: Context2D) -> bool {
    &&& c1.path == c0.path
    &&& c1.has_surface == c0.has_surface
    &&& if c0.state_stack@.len() == 0 {
        &&& c1.state == c0.state
        &&& c1.state_stack@ == c0.state_stack@
    } else {
        &&& c1.state == c0.state_stack@.last()
        &&& c1.state_stack@ == c0.state_stack@.drop_last()
    }
}

pub open spec fn surface_cmd(has_surface: bool, c: Command) -> Seq<Command> {
    if has_surface {
        seq![c]
    } else {
        seq![]
    }
}

pub open spec fn draw_path_paint(c: Command) -> Option<Paint> {
    match c {
        Command::DrawPath(p) => Some(p),
        _ => None,
    }
}

pub open spec fn draw_rect_paint(c: Command) -> Option<Paint> {
    match c {
        Command::DrawRect(_, p) => Some(p),
        _ => None,
    }
}

pub open spec fn draw_image_paint(c: Command) -> Option<Paint> {
    match c {
        Command::DrawImage(_, _, p) => Some(p),
        _ => None,
    }
}

/// The filter request for drawing `src` of an image into `dst`: the
/// destination's origin is stripped, only its size is kept.
pub open spec fn filter_request_of(s: State, src: Rect, dst: Rect) -> ImageFilterRequest {
    ImageFilterRequest {
        src,
        resize: Rect {
            x: Scalar { bits: 0 },
            y: Scalar { bits: 0 },
            width: dst.width,
            height: dst.height,
        },
        quality: s.paint.filter_quality,
    }
}

fn one_command(c: Command) -> (r: Vec<Command>)
    ensures
        r@ == seq![c],
{
    let mut v: Vec<Command> = Vec::new();
    v.push(c);
    proof {
        assert(v@ =~= seq![c]);
    }
    v
}

fn two_commands(a: Command, b: Command) -> (r: Vec<Command>)
    ensures
        r@ == seq![a, b],
{
    let mut v: Vec<Command> = Vec::new();
    v.push(a);
    v.push(b);
    proof {
        assert(v@ =~= seq![a, b]);
    }
    v
}

} // verus!

verus! {

impl Context2D {
    /// A context with no surface, an empty path and the default state:
    /// black fill and stroke, 1px lines, miter limit 10, antialiasing on,
    /// source-over blending, full alpha, no shadow, 10px monospace text on
    /// the alphabetic baseline.
    pub fn new() -> (r: Context2D)
        ensures
            !r.has_surface,
            r.path.verbs@.len() == 0,
            r.state_stack@.len() == 0,
            r.state.paint == (PaintConfig {
                anti_alias: true,
                stroke_width: Scalar { bits: ONE_BITS },
                stroke_miter: Scalar { bits: TEN_BITS },
                filter_quality: FilterQuality::Low,
                blend_mode: BlendMode::SrcOver,
            }),
            r.state.fill_style == Dye::Color(Color::black_spec()),
            r.state.stroke_style == Dye::Color(Color::black_spec()),
            r.state.shadow_blur.bits == 0,
            r.state.shadow_color == (Color { a: 0, r: 0, g: 0, b: 0 }),
            r.state.shadow_offset.x.bits == 0 && r.state.shadow_offset.y.bits == 0,
            r.state.global_alpha == 65535,
            r.state.stroke_width.bits == ONE_BITS,
            r.state.line_dash_offset.bits == 0,
            r.state.line_dash_list@.len() == 0,
            r.state.global_composite_operation == BlendMode::SrcOver,
            r.state.image_filter_quality == FilterQuality::Low,
            r.state.image_smoothing_enabled,
            r.state.font@ == "10px monospace"@,
            r.state.font_variant@ == "normal"@,
            r.state.font_features@.len() == 0,
            r.state.char_style.font_size.bits == TEN_BITS,
            r.state.char_style.font_families@.len() == 0,
            r.state.char_style.font_features@.len() == 0,
            r.state.graf_style == (ParagraphStyle {
                align: TextAlign::Start,
                direction: TextDirection::Ltr,
            }),
            r.state.text_baseline == Baseline::Alphabetic,
            r.state.text_tracking == 0,
    {
        let paint = PaintConfig {
            anti_alias: true,
            stroke_width: Scalar::from_bits(ONE_BITS),
            stroke_miter: Scalar::from_bits(TEN_BITS),
            filter_quality: FilterQuality::Low,
            blend_mode: BlendMode::SrcOver,
        };
        let char_style = CharStyle {
            font_size: Scalar::from_bits(TEN_BITS),
            font_families: Vec::new(),
            font_style: FontStyle { weight: 400, width: 5, slant: FontSlant::Upright },
            font_features: Vec::new(),
        };
        let state = State {
            paint,
            fill_style: Dye::Color(Color::black()),
            stroke_style: Dye::Color(Color::black()),
            shadow_blur: Scalar::zero(),
            shadow_color: Color::transparent(),
            shadow_offset: Point { x: Scalar::zero(), y: Scalar::zero() },
            global_alpha: 65535,
            stroke_width: Scalar::from_bits(ONE_BITS),
            line_dash_offset: Scalar::zero(),
            line_dash_list: Vec::new(),
            global_composite_operation: BlendMode::SrcOver,
            image_filter_quality: FilterQuality::Low,
            image_smoothing_enabled: true,
            font: "10px monospace".to_owned(),
            font_variant: "normal".to_owned(),
            font_features: Vec::new(),
            char_style,
            graf_style: ParagraphStyle { align: TextAlign::Start, direction: TextDirection::Ltr },
            text_baseline: Baseline::Alphabetic,
            text_tracking: 0,
        };
        Context2D { has_surface: false, path: Path::new(), state_stack: Vec::new(), state }
    }

    /// Saves a snapshot of the state; the surface saves its transform and
    /// clip alongside.
    pub fn push(&mut self) -> (r: Vec<Command>)
        ensures
            pushed(*old(self), *final(self)),
            r@ == surface_cmd(old(self).has_surface, Command::Save),
    {
        let snap = self.state.snapshot();
        self.state_stack.push(snap);
        proof {
            assert(self.state_stack@.drop_last() =~= old(self).state_stack@);
        }
        if self.has_surface {
            one_command(Command::Save)
        } else {
            Vec::new()
        }
    }

    /// Restores the latest snapshot, if there is one; the surface restores
    /// its transform and clip in any case.
    pub fn pop(&mut self) -> (r: Vec<Command>)
        ensures
            popped(*old(self), *final(self)),
            r@ == surface_cmd(old(self).has_surface, Command::Restore),
    {
        match self.state_stack.pop() {
            Some(s) => {
                self.state = s;
            },
            None => {},
        }
        if self.has_surface {
            one_command(Command::Restore)
        } else {
            Vec::new()
        }
    }

    /// Empties the path buffer.
    pub fn begin_path(&mut self)
        ensures
            final(self).path.verbs@.len() == 0,
            final(self).state == old(self).state,
            final(self).state_stack == old(self).state_stack,
            final(self).has_surface == old(self).has_surface,
    {
        self.path = Path::new();
    }

    /// Appends a segment command to the path buffer.
    pub fn add_to_path(&mut self, v: PathVerb)
        ensures
            final(self).path.verbs@ == old(self).path.verbs@.push(v),
            final(self).state == old(self).state,
            final(self).state_stack == old(self).state_stack,
            final(self).has_surface == old(self).has_surface,
    {
        self.path.push_verb(v);
    }

    /// The paint for filling with the current fill dye.
    pub fn paint_for_fill(&self) -> (r: Paint)
        ensures
            is_fill_paint(self.state, r),
    {
        let d = self.state.fill_style.contribution(self.state.global_alpha);
        Paint::from_dye(self.state.paint, PaintStyle::Fill, d)
    }

    /// The paint for stroking with the current stroke dye and dash list.
    pub fn paint_for_stroke(&self) -> (r: Paint)
        ensures
            is_stroke_paint(self.state, r),
    {
        let d = self.state.stroke_style.contribution(self.state.global_alpha);
        let mut paint = Paint::from_dye(self.state.paint, PaintStyle::Stroke, d);
        if self.state.line_dash_list.len() > 0 {
            let dash = DashEffect {
                intervals: copy_scalars(&self.state.line_dash_list),
                phase: self.state.line_dash_offset,
            };
            paint.dash = Some(dash);
        }
        paint
    }

    /// The paint that images are drawn with.
    pub fn paint_for_image(&self) -> (r: Paint)
        ensures
            is_image_paint(self.state, r),
    {
        let black = Color::black();
        Paint::from_dye(
            self.state.paint,
            PaintStyle::Fill,
            crate::dye::DyeContribution::Solid(black.with_alpha_scaled(self.state.global_alpha)),
        )
    }

    /// The color `src` with the global alpha applied.
    pub fn color_with_alpha(&self, src: &Color) -> (r: Color)
        ensures
            r == with_scaled_alpha(*src, self.state.global_alpha),
    {
        src.with_alpha_scaled(self.state.global_alpha)
    }

    /// The shadow that the current state calls for, if any.
    pub fn shadow(&self) -> (r: Option<DropShadow>)
        ensures
            r == shadow_of(self.state),
    {
        let color = self.color_with_alpha(&self.state.shadow_color);
        if color.a > 0 && !(self.state.shadow_blur.is_zero() && self.state.shadow_offset.is_zero()) {
            Some(DropShadow {
                offset: self.state.shadow_offset,
                blur: self.state.shadow_blur,
                color,
            })
        } else {
            None
        }
    }

    /// The paint for the shadow of a draw with `base_paint`: a copy of it
    /// that draws only the shadow, or nothing when no shadow is called for.
    pub fn paint_for_shadow(&self, base_paint: &Paint) -> (r: Option<Paint>)
        ensures
            r.is_some() == shadow_of(self.state).is_some(),
            r.is_some() ==> is_shadow_paint(r.unwrap(), *base_paint, shadow_of(self.state).unwrap()),
    {
        match self.shadow() {
            Some(sh) => {
                let mut paint = base_paint.duplicate();
                paint.shadow_filter = Some(sh);
                Some(paint)
            },
            None => None,
        }
    }

    /// Draws the current path with `paint`, its shadow first.
    pub fn draw_path(&self, paint: Paint) -> (r: Vec<Command>)
        ensures
            is_shaded_draw(
                self.has_surface,
                self.state,
                r@,
                Command::DrawPath(paint),
                |c: Command| draw_path_paint(c),
                paint,
                |c: Command| c is DrawPath,
            ),
    {
        let shadow = self.paint_for_shadow(&paint);
        if !self.has_surface {
            return Vec::new();
        }
        match shadow {
            Some(sp) => two_commands(Command::DrawPath(sp), Command::DrawPath(paint)),
            None => one_command(Command::DrawPath(paint)),
        }
    }

    /// Draws `rect` with `paint`, its shadow first.
    pub fn draw_rect(&self, rect: &Rect, paint: Paint) -> (r: Vec<Command>)
        ensures
            is_shaded_draw(
                self.has_surface,
                self.state,
                r@,
                Command::DrawRect(*rect, paint),
                |c: Command| draw_rect_paint(c),
                paint,
                |c: Command| c is DrawRect && c->DrawRect_0 == *rect,
            ),
    {
        let shadow = self.paint_for_shadow(&paint);
        if !self.has_surface {
            return Vec::new();
        }
        match shadow {
            Some(sp) => two_commands(Command::DrawRect(*rect, sp), Command::DrawRect(*rect, paint)),
            None => one_command(Command::DrawRect(*rect, paint)),
        }
    }
}

} // verus!

verus! {

impl Context2D {
    /// Intersects the clip with `path`, or with the current path when none
    /// is given, under `rule`.
    pub fn clip_path(&self, path: Option<Path>, rule: FillRule) -> (r: Vec<Command>)
        ensures
            !self.has_surface ==> r@.len() == 0,
            self.has_surface ==> {
                &&& r@.len() == 1
                &&& r@[0] is ClipPath
                &&& r@[0]->ClipPath_1 == rule
                &&& r@[0]->ClipPath_0.verbs@ == match path {
                    Some(p) => p.verbs@,
                    None => self.path.verbs@,
                }
            },
    {
        if !self.has_surface {
            return Vec::new();
        }
        let clip = match path {
            Some(p) => p,
            None => self.path.duplicate(),
        };
        one_command(Command::ClipPath(clip, rule))
    }

    /// Clears `rect` to transparent, whatever the current style.
    pub fn clear_rect(&self, rect: &Rect) -> (r: Vec<Command>)
        ensures
            !self.has_surface ==> r@.len() == 0,
            self.has_surface ==> {
                &&& r@.len() == 1
                &&& r@[0] is DrawRect
                &&& r@[0]->DrawRect_0 == *rect
                &&& is_plain_paint(r@[0]->DrawRect_1, BlendMode::Clear)
            },
    {
        let mut paint = Paint::plain();
        paint.config.blend_mode = BlendMode::Clear;
        if !self.has_surface {
            return Vec::new();
        }
        one_command(Command::DrawRect(*rect, paint))
    }

    /// What to ask the image filter for when drawing `src_rect` of an image
    /// into `dst_rect`: the source crop, resized to the destination's size at
    /// the origin.
    pub fn image_filter_request(&self, src_rect: &Rect, dst_rect: &Rect) -> (r: ImageFilterRequest)
        ensures
            r == filter_request_of(self.state, *src_rect, *dst_rect),
    {
        ImageFilterRequest {
            src: *src_rect,
            resize: dst_rect.at_origin(),
            quality: self.state.paint.filter_quality,
        }
    }

    /// Draws an image after filtering. `filtered` is the position correction
    /// that the filter reported, or `None` when there was no image or the
    /// filter produced nothing; then nothing is drawn. Otherwise the shadow,
    /// if any, then the image are drawn at the destination's origin moved by
    /// the correction.
    pub fn draw_image(&self, dst_rect: &Rect, filtered: Option<Point>) -> (r: Vec<Command>)
        ensures
            filtered.is_none() ==> r@.len() == 0,
            filtered.is_some() ==> exists|p: Paint|
                #[trigger] is_image_paint(self.state, p) && is_shaded_draw(
                    self.has_surface,
                    self.state,
                    r@,
                    Command::DrawImage(dst_rect.origin_spec(), filtered.unwrap(), p),
                    |c: Command| draw_image_paint(c),
                    p,
                    |c: Command|
                        c is DrawImage && c->DrawImage_0 == dst_rect.origin_spec()
                            && c->DrawImage_1 == filtered.unwrap(),
                ),
    {
        let paint = self.paint_for_image();
        let shadow = self.paint_for_shadow(&paint);
        let correction = match filtered {
            Some(c) => c,
            None => {
                return Vec::new();
            },
        };
        let origin = dst_rect.origin();
        let ghost p = paint;
        if !self.has_surface {
            return Vec::new();
        }
        let r = match shadow {
            Some(sp) => two_commands(
                Command::DrawImage(origin, correction, sp),
                Command::DrawImage(origin, correction, paint),
            ),
            None => one_command(Command::DrawImage(origin, correction, paint)),
        };
        assert(is_image_paint(self.state, p));
        r
    }

    /// Copies `src_rect` of an image to `dst_rect` in device space: no
    /// transform, no shadow, no filtering beyond the strict crop. The clip
    /// stays in force. Nothing is drawn without an image or a surface.
    pub fn blit_image(&self, has_image: bool, src_rect: &Rect, dst_rect: &Rect) -> (r: Vec<Command>)
        ensures
            !(has_image && self.has_surface) ==> r@.len() == 0,
            has_image && self.has_surface ==> {
                &&& r@.len() == 4
                &&& r@[0] is Save
                &&& r@[1] is ResetMatrix
                &&& r@[2] is BlitImage
                &&& r@[2]->BlitImage_0 == *src_rect
                &&& r@[2]->BlitImage_1 == *dst_rect
                &&& is_plain_paint(r@[2]->BlitImage_2, BlendMode::SrcOver)
                &&& r@[3] is Restore
            },
    {
        if !(has_image && self.has_surface) {
            return Vec::new();
        }
        let mut v: Vec<Command> = Vec::new();
        v.push(Command::Save);
        v.push(Command::ResetMatrix);
        v.push(Command::BlitImage(*src_rect, *dst_rect, Paint::plain()));
        v.push(Command::Restore);
        v
    }

    /// Brings the paint's resampling quality in line with the smoothing
    /// setting: the chosen quality when smoothing is on, none when it is off.
    pub fn update_image_quality(&mut self)
        ensures
            final(self).state.paint == (PaintConfig {
                filter_quality: if old(self).state.image_smoothing_enabled {
                    old(self).state.image_filter_quality
                } else {
                    FilterQuality::Disabled
                },
                ..old(self).state.paint
            }),
            final(self).state == (State { paint: final(self).state.paint, ..old(self).state }),
            final(self).path == old(self).path,
            final(self).state_stack == old(self).state_stack,
            final(self).has_surface == old(self).has_surface,
    {
        self.state.paint.filter_quality = if self.state.image_smoothing_enabled {
            self.state.image_filter_quality
        } else {
            FilterQuality::Disabled
        };
    }

    /// Sets the font variant name and replaces the feature settings of the
    /// character style with `features`, in order.
    pub fn set_font_variant(&mut self, variant: &str, features: &Vec<FontFeature>)
        ensures
            final(self).state.font_variant@ == variant@,
            final(self).state.char_style.font_features@ == features@,
            final(self).state.char_style.font_size == old(self).state.char_style.font_size,
            final(self).state.char_style.font_families == old(self).state.char_style.font_families,
            final(self).state.char_style.font_style == old(self).state.char_style.font_style,
            final(self).state == (State {
                font_variant: final(self).state.font_variant,
                char_style: final(self).state.char_style,
                ..old(self).state
            }),
            final(self).path == old(self).path,
            final(self).state_stack == old(self).state_stack,
            final(self).has_surface == old(self).has_surface,
    {
        self.state.font_variant = variant.to_owned();
        self.state.char_style.font_features = copy_features(features);
    }

    /// Commits the font `spec` when the font service found at least one
    /// matching face (`matched`); otherwise leaves the state as it was.
    pub fn choose_font(&mut self, spec: FontSpec, matched: bool)
        ensures
            !matched ==> final(self).state == old(self).state,
            matched ==> {
                &&& final(self).state.font@ == spec.canonical@
                &&& final(self).state.char_style.font_style == spec.style
                &&& final(self).state.char_style.font_families@ == spec.families@
                &&& final(self).state.char_style.font_size == spec.size
                &&& final(self).state.char_style.font_features@ == spec.features@
                &&& final(self).state.font_variant@ == spec.variant@
                &&& final(self).state == (State {
                    font: final(self).state.font,
                    font_variant: final(self).state.font_variant,
                    char_style: final(self).state.char_style,
                    ..old(self).state
                })
            },
            final(self).path == old(self).path,
            final(self).state_stack == old(self).state_stack,
            final(self).has_surface == old(self).has_surface,
    {
        if matched {
            self.state.font = spec.canonical;
            self.state.char_style.font_style = spec.style;
            self.state.char_style.font_families = spec.families;
            self.state.char_style.font_size = spec.size;
            self.set_font_variant(spec.variant.as_str(), &spec.features);
        }
    }
}

} // verus!

verus! {

/// `run` is `text` typeset under state `s` with foreground paint `paint`.
pub open spec fn is_text_run(s: State, text: String, paint: Paint, run: TextRun) -> bool {
    &&& run.text == text
    &&& run.char_style.same_as(s.char_style)
    &&& run.foreground == paint
    &&& run.shadow == shadow_of(s)
    &&& run.paragraph == s.graf_style
    &&& run.layout_width.bits == GALLEY_BITS
}

/// `cmds` draws `text` at (`x`, `y`) with `paint` in context `c`: nothing
/// without a surface, else one paragraph anchored at the point, read against
/// the current baseline mode and alignment.
pub open spec fn is_text_draw(
    c: Context2D,
    text: String,
    x: Scalar,
    y: Scalar,
    paint: Paint,
    cmds: Seq<Command>,
) -> bool {
    if !c.has_surface {
        cmds.len() == 0
    } else {
        &&& cmds.len() == 1
        &&& cmds[0] is DrawParagraph
        &&& is_text_run(c.state, text, paint, cmds[0]->DrawParagraph_0)
        &&& cmds[0]->DrawParagraph_1 == (Point { x, y })
        &&& cmds[0]->DrawParagraph_2 == baseline_shift_of(c.state.text_baseline)
        &&& cmds[0]->DrawParagraph_3 == align_factor_of(
            c.state.graf_style.align,
            c.state.graf_style.direction,
        )
    }
}

impl Context2D {
    /// Typesets `text` on a single line in the current character and
    /// paragraph style, painted with `paint`, with the current shadow.
    pub fn typeset_text(&self, text: String, paint: Paint) -> (r: TextRun)
        ensures
            is_text_run(self.state, text, paint, r),
    {
        TextRun {
            text,
            char_style: self.state.char_style.duplicate(),
            foreground: paint,
            shadow: self.shadow(),
            paragraph: self.state.graf_style,
            layout_width: Scalar::from_bits(GALLEY_BITS),
        }
    }

    /// Draws `text` anchored at (`x`, `y`): the point is read against the
    /// current baseline mode vertically and the current alignment
    /// horizontally.
    pub fn draw_text(&self, text: String, x: Scalar, y: Scalar, paint: Paint) -> (r: Vec<Command>)
        ensures
            is_text_draw(*self, text, x, y, paint, r@),
    {
        if !self.has_surface {
            return Vec::new();
        }
        let run = self.typeset_text(text, paint);
        let factor = alignment_factor(self.state.graf_style.align, self.state.graf_style.direction);
        let shift = baseline_shift(self.state.text_baseline);
        one_command(Command::DrawParagraph(run, Point { x, y }, shift, factor))
    }
}

} // verus!

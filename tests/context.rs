use canvas_core::color::Color;
use canvas_core::context::{Command, Context2D, GALLEY_BITS};
use canvas_core::dye::{Dye, DyeContribution, GradientRef, PatternRef, ShaderSource};
use canvas_core::paint::{DropShadow, Paint};
use canvas_core::path::{Path, PathVerb};
use canvas_core::refs::{fetch_ref, stash_ref};
use canvas_core::scalar::{Point, Rect, Scalar};
use canvas_core::state::{FontFeature, FontSpec};
use canvas_core::style::{
    alignment_factor, baseline_shift, AlignFactor, Baseline, BaselineShift, BlendMode, FillRule, FilterQuality, FontSlant,
    FontStyle, PaintStyle, TextAlign, TextDirection,
};

fn s(v: f32) -> Scalar {
    Scalar::from_bits(v.to_bits())
}

fn pt(x: f32, y: f32) -> Point {
    Point { x: s(x), y: s(y) }
}

fn rect(x: f32, y: f32, w: f32, h: f32) -> Rect {
    Rect { x: s(x), y: s(y), width: s(w), height: s(h) }
}

fn with_surface() -> Context2D {
    let mut ctx = Context2D::new();
    ctx.has_surface = true;
    ctx
}

fn red(a: u8) -> Color {
    Color { a, r: 255, g: 0, b: 0 }
}

#[test]
fn defaults_of_a_new_context() {
    let ctx = Context2D::new();
    assert!(!ctx.has_surface);
    assert!(ctx.state_stack.is_empty());
    assert_eq!(ctx.state.font, "10px monospace");
    assert_eq!(ctx.state.font_variant, "normal");
    assert_eq!(ctx.state.fill_style, Dye::Color(Color::black()));
    assert_eq!(ctx.state.global_alpha, 65535);
    assert_eq!(ctx.state.text_baseline, Baseline::Alphabetic);
    assert_eq!(f32::from_bits(ctx.state.paint.stroke_width.bits), 1.0);
    assert_eq!(f32::from_bits(ctx.state.paint.stroke_miter.bits), 10.0);
    assert_eq!(f32::from_bits(ctx.state.char_style.font_size.bits), 10.0);
    assert!(ctx.state.paint.anti_alias);
}

#[test]
fn scalar_zero_test_covers_both_signs() {
    assert!(s(0.0).is_zero());
    assert!(s(-0.0).is_zero());
    assert!(!s(5.0).is_zero());
    assert!(!s(f32::MIN_POSITIVE).is_zero());
}

#[test]
fn alpha_scaling_rounds_to_nearest() {
    assert_eq!(red(255).with_alpha_scaled(65535), red(255));
    assert_eq!(red(77).with_alpha_scaled(65535).a, 77);
    assert_eq!(red(255).with_alpha_scaled(32768).a, 128);
    assert_eq!(red(128).with_alpha_scaled(32768).a, 64);
    assert_eq!(red(1).with_alpha_scaled(32767).a, 0);
    assert_eq!(red(1).with_alpha_scaled(32768).a, 1);
    assert_eq!(red(200).with_alpha_scaled(0).a, 0);
    // 0.3 of an alpha of 128 is 38.4
    assert_eq!(red(128).with_alpha_scaled(19661).a, 38);
}

#[test]
fn restore_on_empty_stack_keeps_state() {
    let mut ctx = with_surface();
    ctx.state.global_alpha = 77;
    ctx.state.shadow_color = red(9);
    let cmds = ctx.pop();
    assert_eq!(cmds.len(), 1);
    assert!(matches!(cmds[0], Command::Restore));
    assert_eq!(ctx.state.global_alpha, 77);
    assert_eq!(ctx.state.shadow_color, red(9));
    assert!(ctx.state_stack.is_empty());
}

#[test]
fn save_restore_sequence_depths() {
    let mut ctx = Context2D::new();
    ctx.pop();
    assert_eq!(ctx.state_stack.len(), 0);
    ctx.push();
    ctx.push();
    ctx.push();
    assert_eq!(ctx.state_stack.len(), 3);
    ctx.pop();
    assert_eq!(ctx.state_stack.len(), 2);
    ctx.pop();
    ctx.pop();
    ctx.pop();
    ctx.pop();
    assert_eq!(ctx.state_stack.len(), 0);
    ctx.push();
    assert_eq!(ctx.state_stack.len(), 1);
}

#[test]
fn restore_brings_back_saved_style() {
    let mut ctx = Context2D::new();
    ctx.state.global_alpha = 100;
    ctx.state.line_dash_list = vec![s(3.0), s(1.0)];
    ctx.state.font = "bold 12px serif".to_string();
    let cmds = ctx.push();
    assert!(cmds.is_empty());
    ctx.state.global_alpha = 5;
    ctx.state.line_dash_list.clear();
    ctx.state.font = "8px sans-serif".to_string();
    ctx.pop();
    assert_eq!(ctx.state.global_alpha, 100);
    assert_eq!(ctx.state.line_dash_list, vec![s(3.0), s(1.0)]);
    assert_eq!(ctx.state.font, "bold 12px serif");
}

#[test]
fn path_survives_save_restore() {
    let mut ctx = with_surface();
    ctx.add_to_path(PathVerb::MoveTo(pt(1.0, 2.0)));
    ctx.add_to_path(PathVerb::LineTo(pt(3.0, 4.0)));
    ctx.add_to_path(PathVerb::Close);
    let before = ctx.path.verbs.clone();
    let first = ctx.draw_path(ctx.paint_for_fill());
    ctx.push();
    ctx.pop();
    assert_eq!(ctx.path.verbs, before);
    let second = ctx.draw_path(ctx.paint_for_fill());
    assert_eq!(format!("{:?}", first), format!("{:?}", second));
    ctx.begin_path();
    assert!(ctx.path.verbs.is_empty());
}

#[test]
fn no_shadow_when_transparent_and_still() {
    let mut ctx = with_surface();
    ctx.state.shadow_color = red(0);
    assert!(ctx.shadow().is_none());
    let cmds = ctx.draw_path(ctx.paint_for_fill());
    assert_eq!(cmds.len(), 1);
    let cmds = ctx.draw_rect(&rect(0.0, 0.0, 4.0, 4.0), ctx.paint_for_fill());
    assert_eq!(cmds.len(), 1);
}

#[test]
fn opaque_still_shadow_is_suppressed() {
    let mut ctx = with_surface();
    ctx.state.shadow_color = red(255);
    assert!(ctx.shadow().is_none());
    assert_eq!(ctx.draw_path(ctx.paint_for_fill()).len(), 1);
}

#[test]
fn offset_shadow_is_drawn_before_primary() {
    let mut ctx = with_surface();
    ctx.state.shadow_color = red(255);
    ctx.state.shadow_offset = pt(5.0, 5.0);
    let fill = ctx.paint_for_fill();
    let cmds = ctx.draw_path(fill);
    assert_eq!(cmds.len(), 2);
    match (&cmds[0], &cmds[1]) {
        (Command::DrawPath(shadow), Command::DrawPath(primary)) => {
            let sh = shadow.shadow_filter.unwrap();
            assert_eq!(sh.offset, pt(5.0, 5.0));
            assert_eq!(sh.color, red(255));
            assert!(primary.shadow_filter.is_none());
            assert_eq!(shadow.color, primary.color);
        }
        _ => panic!("expected two path draws"),
    }
    let cmds = ctx.draw_rect(&rect(1.0, 1.0, 2.0, 2.0), ctx.paint_for_fill());
    assert_eq!(cmds.len(), 2);
    assert!(matches!(&cmds[0], Command::DrawRect(_, p) if p.shadow_filter.is_some()));
    assert!(matches!(&cmds[1], Command::DrawRect(_, p) if p.shadow_filter.is_none()));
}

#[test]
fn shadow_alpha_is_scaled_by_global_alpha() {
    let mut ctx = with_surface();
    ctx.state.shadow_color = red(1);
    ctx.state.global_alpha = 26214;
    ctx.state.shadow_blur = s(4.0);
    assert!(ctx.shadow().is_none());
    ctx.state.shadow_color = red(200);
    let sh = ctx.shadow().unwrap();
    assert_eq!(sh.color.a, 80);
    assert_eq!(sh.blur, s(4.0));
}

#[test]
fn nothing_drawn_without_surface() {
    let mut ctx = Context2D::new();
    ctx.state.shadow_color = red(255);
    ctx.state.shadow_offset = pt(5.0, 5.0);
    assert!(ctx.draw_path(ctx.paint_for_fill()).is_empty());
    assert!(ctx.draw_rect(&rect(0.0, 0.0, 1.0, 1.0), ctx.paint_for_fill()).is_empty());
    assert!(ctx.clear_rect(&rect(0.0, 0.0, 1.0, 1.0)).is_empty());
    assert!(ctx.clip_path(None, FillRule::NonZero).is_empty());
    assert!(ctx.draw_text("hi".to_string(), s(0.0), s(0.0), ctx.paint_for_fill()).is_empty());
    assert!(ctx.blit_image(true, &rect(0.0, 0.0, 1.0, 1.0), &rect(0.0, 0.0, 1.0, 1.0)).is_empty());
    assert!(ctx.push().is_empty());
    assert!(ctx.pop().is_empty());
}

#[test]
fn fill_resolution_of_each_dye() {
    let mut ctx = Context2D::new();
    ctx.state.global_alpha = 32768;
    ctx.state.fill_style = Dye::Color(red(255));
    let p = ctx.paint_for_fill();
    assert_eq!(p.style, PaintStyle::Fill);
    assert_eq!(p.color, red(128));
    assert!(p.shader.is_none());
    ctx.state.fill_style = Dye::Gradient(GradientRef { id: 7 });
    let p = ctx.paint_for_fill();
    assert_eq!(p.shader, Some(ShaderSource::Gradient(GradientRef { id: 7 })));
    ctx.state.stroke_style = Dye::Pattern(PatternRef { id: 3 });
    let p = ctx.paint_for_stroke();
    assert_eq!(p.style, PaintStyle::Stroke);
    assert_eq!(p.shader, Some(ShaderSource::Pattern(PatternRef { id: 3 })));
}

#[test]
fn fill_resolution_is_idempotent() {
    let mut ctx = Context2D::new();
    ctx.state.fill_style = Dye::Color(Color { a: 90, r: 1, g: 2, b: 3 });
    ctx.state.global_alpha = 31;
    let a = ctx.paint_for_fill();
    let b = ctx.paint_for_fill();
    assert_eq!(format!("{:?}", a), format!("{:?}", b));
    ctx.state.fill_style = Dye::Pattern(PatternRef { id: 11 });
    let a = ctx.paint_for_fill();
    let b = ctx.paint_for_fill();
    assert_eq!(a.shader, b.shader);
    assert_eq!(a.color, b.color);
}

#[test]
fn dash_list_installs_and_clears_effect() {
    let mut ctx = Context2D::new();
    assert!(ctx.paint_for_stroke().dash.is_none());
    ctx.state.line_dash_list = vec![s(4.0), s(2.0)];
    ctx.state.line_dash_offset = s(1.0);
    let dash = ctx.paint_for_stroke().dash.unwrap();
    assert_eq!(dash.intervals, vec![s(4.0), s(2.0)]);
    assert_eq!(dash.phase, s(1.0));
    ctx.state.line_dash_list = vec![];
    assert!(ctx.paint_for_stroke().dash.is_none());
    assert!(ctx.paint_for_fill().dash.is_none());
}

#[test]
fn image_filter_request_strips_origin() {
    let ctx = Context2D::new();
    let src = rect(0.0, 0.0, 10.0, 10.0);
    let inside = ctx.image_filter_request(&src, &rect(2.0, 3.0, 20.0, 30.0));
    let outside = ctx.image_filter_request(&src, &rect(5000.0, -900.0, 20.0, 30.0));
    assert_eq!(inside, outside);
    assert_eq!(inside.resize, rect(0.0, 0.0, 20.0, 30.0));
    assert_eq!(inside.src, src);
    assert_eq!(inside.quality, FilterQuality::Low);
}

#[test]
fn draw_image_places_at_destination_origin() {
    let mut ctx = with_surface();
    ctx.state.global_alpha = 32768;
    let dst = rect(5000.0, -900.0, 20.0, 30.0);
    let cmds = ctx.draw_image(&dst, Some(pt(1.0, 2.0)));
    assert_eq!(cmds.len(), 1);
    match &cmds[0] {
        Command::DrawImage(origin, corr, paint) => {
            assert_eq!(*origin, pt(5000.0, -900.0));
            assert_eq!(*corr, pt(1.0, 2.0));
            assert_eq!(paint.color, Color { a: 128, r: 0, g: 0, b: 0 });
        }
        _ => panic!("expected an image draw"),
    }
    assert!(ctx.draw_image(&dst, None).is_empty());
    ctx.state.shadow_color = red(255);
    ctx.state.shadow_blur = s(3.0);
    let cmds = ctx.draw_image(&dst, Some(pt(0.0, 0.0)));
    assert_eq!(cmds.len(), 2);
    assert!(matches!(&cmds[0], Command::DrawImage(_, _, p) if p.shadow_filter.is_some()));
}

#[test]
fn clip_uses_given_or_current_path() {
    let mut ctx = with_surface();
    ctx.add_to_path(PathVerb::MoveTo(pt(0.0, 0.0)));
    let cmds = ctx.clip_path(None, FillRule::EvenOdd);
    match &cmds[0] {
        Command::ClipPath(p, rule) => {
            assert_eq!(p.verbs, ctx.path.verbs);
            assert_eq!(*rule, FillRule::EvenOdd);
        }
        _ => panic!("expected a clip"),
    }
    let mut other = Path::new();
    other.push_verb(PathVerb::Close);
    let cmds = ctx.clip_path(Some(other), FillRule::NonZero);
    assert!(matches!(&cmds[0], Command::ClipPath(p, FillRule::NonZero) if p.verbs == vec![PathVerb::Close]));
}

#[test]
fn clear_rect_ignores_style() {
    let mut ctx = with_surface();
    ctx.state.global_alpha = 3;
    ctx.state.shadow_color = red(255);
    ctx.state.shadow_offset = pt(5.0, 5.0);
    let cmds = ctx.clear_rect(&rect(1.0, 2.0, 3.0, 4.0));
    assert_eq!(cmds.len(), 1);
    match &cmds[0] {
        Command::DrawRect(r, p) => {
            assert_eq!(*r, rect(1.0, 2.0, 3.0, 4.0));
            assert_eq!(p.config.blend_mode, BlendMode::Clear);
            assert!(!p.config.anti_alias);
            assert_eq!(p.config.stroke_width.bits, 0);
            assert_eq!(f32::from_bits(p.config.stroke_miter.bits), 4.0);
            assert_eq!(p.config.filter_quality, FilterQuality::Disabled);
            assert_eq!(p.color, Color::black());
            assert!(p.shader.is_none());
            assert!(p.dash.is_none());
            assert!(p.shadow_filter.is_none());
        }
        _ => panic!("expected a rect draw"),
    }
}

#[test]
fn blit_resets_transform_around_copy() {
    let ctx = with_surface();
    let cmds = ctx.blit_image(true, &rect(0.0, 0.0, 2.0, 2.0), &rect(4.0, 4.0, 8.0, 8.0));
    assert_eq!(cmds.len(), 4);
    assert!(matches!(cmds[0], Command::Save));
    assert!(matches!(cmds[1], Command::ResetMatrix));
    assert!(matches!(&cmds[2], Command::BlitImage(s0, d0, _) if *s0 == rect(0.0, 0.0, 2.0, 2.0) && *d0 == rect(4.0, 4.0, 8.0, 8.0)));
    assert!(matches!(cmds[3], Command::Restore));
    match &cmds[2] {
        Command::BlitImage(_, _, p) => {
            assert_eq!(p.style, PaintStyle::Fill);
            assert_eq!(p.config.blend_mode, BlendMode::SrcOver);
            assert!(!p.config.anti_alias);
            assert_eq!(p.color, Color::black());
            assert!(p.shader.is_none() && p.dash.is_none() && p.shadow_filter.is_none());
        }
        _ => panic!("expected a blit"),
    }
    assert!(ctx.blit_image(false, &rect(0.0, 0.0, 2.0, 2.0), &rect(4.0, 4.0, 8.0, 8.0)).is_empty());
}

#[test]
fn image_quality_follows_smoothing() {
    let mut ctx = Context2D::new();
    ctx.state.image_filter_quality = FilterQuality::High;
    ctx.update_image_quality();
    assert_eq!(ctx.state.paint.filter_quality, FilterQuality::High);
    ctx.state.image_smoothing_enabled = false;
    ctx.update_image_quality();
    assert_eq!(ctx.state.paint.filter_quality, FilterQuality::Disabled);
}

fn spec() -> FontSpec {
    FontSpec {
        families: vec!["Helvetica".to_string(), "Arial".to_string()],
        style: FontStyle { weight: 700, width: 5, slant: FontSlant::Italic },
        size: s(24.0),
        variant: "small-caps".to_string(),
        features: vec![FontFeature { tag: "smcp".to_string(), value: 1 }],
        canonical: "italic bold 24px Helvetica, Arial".to_string(),
    }
}

#[test]
fn choose_font_commits_on_match() {
    let mut ctx = Context2D::new();
    ctx.choose_font(spec(), true);
    assert_eq!(ctx.state.font, "italic bold 24px Helvetica, Arial");
    assert_eq!(ctx.state.font_variant, "small-caps");
    assert_eq!(ctx.state.char_style.font_size, s(24.0));
    assert_eq!(ctx.state.char_style.font_families, vec!["Helvetica".to_string(), "Arial".to_string()]);
    assert_eq!(ctx.state.char_style.font_features.len(), 1);
    assert_eq!(ctx.state.char_style.font_features[0].tag, "smcp");
    assert_eq!(ctx.state.char_style.font_style.weight, 700);
}

#[test]
fn choose_font_without_match_changes_nothing() {
    let mut ctx = Context2D::new();
    ctx.choose_font(spec(), false);
    assert_eq!(ctx.state.font, "10px monospace");
    assert_eq!(ctx.state.font_variant, "normal");
    assert_eq!(ctx.state.char_style.font_size, s(10.0));
    assert!(ctx.state.char_style.font_families.is_empty());
}

#[test]
fn set_font_variant_replaces_features() {
    let mut ctx = Context2D::new();
    ctx.set_font_variant("a", &vec![FontFeature { tag: "liga".to_string(), value: 0 }]);
    ctx.set_font_variant("b", &vec![
        FontFeature { tag: "kern".to_string(), value: 1 },
        FontFeature { tag: "tnum".to_string(), value: 1 },
    ]);
    assert_eq!(ctx.state.font_variant, "b");
    let tags: Vec<&str> = ctx.state.char_style.font_features.iter().map(|f| f.tag.as_str()).collect();
    assert_eq!(tags, vec!["kern", "tnum"]);
}

#[test]
fn typeset_carries_style_and_shadow() {
    let mut ctx = Context2D::new();
    let run = ctx.typeset_text("abc".to_string(), ctx.paint_for_fill());
    assert_eq!(run.text, "abc");
    assert!(run.shadow.is_none());
    assert_eq!(run.layout_width.bits, GALLEY_BITS);
    assert_eq!(f32::from_bits(run.layout_width.bits), 100_000.0);
    ctx.state.shadow_color = red(255);
    ctx.state.shadow_blur = s(6.0);
    let run = ctx.typeset_text("abc".to_string(), ctx.paint_for_fill());
    let expected = DropShadow { offset: pt(0.0, 0.0), blur: s(6.0), color: red(255) };
    assert_eq!(run.shadow, Some(expected));
}

#[test]
fn draw_text_anchors_at_point() {
    let mut ctx = with_surface();
    ctx.state.graf_style.align = TextAlign::Center;
    let cmds = ctx.draw_text("hi".to_string(), s(10.0), s(20.0), ctx.paint_for_fill());
    assert_eq!(cmds.len(), 1);
    match &cmds[0] {
        Command::DrawParagraph(run, at, baseline, factor) => {
            assert_eq!(run.text, "hi");
            assert_eq!(*at, pt(10.0, 20.0));
            assert_eq!(*baseline, BaselineShift::Zero);
            assert_eq!(*factor, AlignFactor::Half);
        }
        _ => panic!("expected a paragraph"),
    }
}

#[test]
fn alignment_factors() {
    assert_eq!(alignment_factor(TextAlign::Start, TextDirection::Ltr), AlignFactor::Zero);
    assert_eq!(alignment_factor(TextAlign::Left, TextDirection::Rtl), AlignFactor::Zero);
    assert_eq!(alignment_factor(TextAlign::Center, TextDirection::Ltr), AlignFactor::Half);
    assert_eq!(alignment_factor(TextAlign::End, TextDirection::Ltr), AlignFactor::One);
    assert_eq!(alignment_factor(TextAlign::Right, TextDirection::Ltr), AlignFactor::One);
    assert_eq!(alignment_factor(TextAlign::Start, TextDirection::Rtl), AlignFactor::One);
    assert_eq!(alignment_factor(TextAlign::End, TextDirection::Rtl), AlignFactor::Zero);
}

#[test]
fn reference_slots() {
    assert_eq!(stash_ref(0), (1, 0));
    assert_eq!(stash_ref(3), (4, 3));
    assert_eq!(fetch_ref(2, 0), None);
    assert_eq!(fetch_ref(1, 3), Some(1));
    assert_eq!(fetch_ref(5, 3), Some(2));
}

#[test]
fn paint_from_shader_contribution_keeps_black() {
    let cfg = Context2D::new().state.paint;
    let p = Paint::from_dye(cfg, PaintStyle::Fill, DyeContribution::Shader(ShaderSource::Gradient(GradientRef { id: 1 })));
    assert_eq!(p.color, Color::black());
    let q = p.duplicate();
    assert_eq!(q.shader, p.shader);
}

#[test]
fn baseline_modes_pick_their_offsets() {
    assert_eq!(baseline_shift(Baseline::Alphabetic), BaselineShift::Zero);
    assert_eq!(baseline_shift(Baseline::Top), BaselineShift::NegAscent);
    assert_eq!(baseline_shift(Baseline::Hanging), BaselineShift::CapHeight);
    assert_eq!(baseline_shift(Baseline::Middle), BaselineShift::HalfCapHeight);
    assert_eq!(baseline_shift(Baseline::Ideographic), BaselineShift::NegDescent);
    assert_eq!(baseline_shift(Baseline::Bottom), BaselineShift::NegDescent);
}

#[test]
fn draw_text_offset_follows_baseline_mode() {
    let mut ctx = with_surface();
    ctx.state.text_baseline = Baseline::Top;
    let cmds = ctx.draw_text("x".to_string(), s(1.0), s(2.0), ctx.paint_for_fill());
    assert!(matches!(&cmds[0], Command::DrawParagraph(_, _, BaselineShift::NegAscent, AlignFactor::Zero)));
}

#[test]
fn nested_restore_returns_matching_state() {
    let mut ctx = Context2D::new();
    ctx.state.global_alpha = 10;
    ctx.push();
    ctx.state.global_alpha = 20;
    ctx.push();
    ctx.state.global_alpha = 30;
    ctx.pop();
    assert_eq!(ctx.state.global_alpha, 20);
    ctx.state.global_alpha = 40;
    ctx.pop();
    assert_eq!(ctx.state.global_alpha, 10);
    assert!(ctx.state_stack.is_empty());
}

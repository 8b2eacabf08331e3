//! Properties that relate several operations of the context.
use vstd::prelude::*;
use crate::color::with_scaled_alpha;
use crate::context::{
    Command, Context2D, filter_request_of, is_text_draw, is_fill_paint, is_stroke_paint, popped, pushed, shadow_of,
};
use crate::paint::Paint;
use crate::scalar::{Rect, Scalar};
use crate::state::State;
use crate::style::{Baseline, BaselineShift};

verus! {

/// Stack depth after a sequence of saves (`true`) and restores (`false`)
/// from depth `d`, where a restore at depth zero leaves it at zero.
pub open spec fn depth_after(d: nat, ops: Seq<bool>) -> nat
    decreases ops.len(),
{
    if ops.len() == 0 {
        d
    } else {
        let next: nat = if ops[0] {
            d + 1
        } else if d == 0 {
            0
        } else {
            (d - 1) as nat
        };
        depth_after(next, ops.drop_first())
    }
}

/// Saves less restores in `ops`.
pub open spec fn net_saves(ops: Seq<bool>) -> int
    decreases ops.len(),
{
    if ops.len() == 0 {
        0
    } else {
        (if ops[0] {
            1int
        } else {
            -1int
        }) + net_saves(ops.drop_first())
    }
}

/// Whether, starting from depth `d`, no restore in `ops` finds the stack
/// empty.
pub open spec fn never_underflows(d: int, ops: Seq<bool>) -> bool
    decreases ops.len(),
{
    if ops.len() == 0 {
        true
    } else if ops[0] {
        never_underflows(d + 1, ops.drop_first())
    } else {
        d > 0 && never_underflows(d - 1, ops.drop_first())
    }
}

/// The depth after a run of saves and restores is at least the starting
/// depth plus saves less restores, and equal to it when no restore finds the
/// stack empty.
pub proof fn depth_counts_net_saves(d: nat, ops: Seq<bool>)
    ensures
        depth_after(d, ops) >= d + net_saves(ops),
        never_underflows(d as int, ops) ==> depth_after(d, ops) == d + net_saves(ops),
    decreases ops.len(),
{
    if ops.len() > 0 {
        let next: nat = if ops[0] {
            d + 1
        } else if d == 0 {
            0
        } else {
            (d - 1) as nat
        };
        depth_counts_net_saves(next, ops.drop_first());
    }
}

/// Over any run of saves and restores, the number of snapshots on the stack
/// is the count of saves less the count of restores, where a restore with
/// no snapshot counts for nothing; it is exactly saves less restores (plus
/// the starting depth) when no restore finds the stack empty.
pub proof fn stack_depth_follows_saves_and_restores(cs: Seq<Context2D>, ops: Seq<bool>)
    requires
        cs.len() == ops.len() + 1,
        forall|i: int| 0 <= i < ops.len() && ops[i] ==> pushed(cs[i], #[trigger] cs[i + 1]),
        forall|i: int| 0 <= i < ops.len() && !ops[i] ==> popped(cs[i], #[trigger] cs[i + 1]),
    ensures
        cs.last().state_stack@.len() == depth_after(cs[0].state_stack@.len(), ops),
        cs.last().state_stack@.len() >= cs[0].state_stack@.len() + net_saves(ops),
        never_underflows(cs[0].state_stack@.len() as int, ops) ==> cs.last().state_stack@.len()
            == cs[0].state_stack@.len() + net_saves(ops),
{
    stack_depth_steps(cs, ops);
    depth_counts_net_saves(cs[0].state_stack@.len(), ops);
}

proof fn stack_depth_steps(cs: Seq<Context2D>, ops: Seq<bool>)
    requires
        cs.len() == ops.len() + 1,
        forall|i: int| 0 <= i < ops.len() && ops[i] ==> pushed(cs[i], #[trigger] cs[i + 1]),
        forall|i: int| 0 <= i < ops.len() && !ops[i] ==> popped(cs[i], #[trigger] cs[i + 1]),
    ensures
        cs.last().state_stack@.len() == depth_after(cs[0].state_stack@.len(), ops),
    decreases ops.len(),
{
    if ops.len() > 0 {
        let rest = cs.drop_first();
        assert forall|i: int| 0 <= i < ops.drop_first().len() && ops.drop_first()[i] implies pushed(
            rest[i],
            #[trigger] rest[i + 1],
        ) by {
            let j = i + 1;
            assert(ops.drop_first()[i] == ops[j]);
            assert(rest[i] == cs[j] && rest[i + 1] == cs[j + 1]);
            assert(pushed(cs[j], cs[j + 1]));
        }
        assert forall|i: int|
            0 <= i < ops.drop_first().len() && !ops.drop_first()[i] implies popped(
            rest[i],
            #[trigger] rest[i + 1],
        ) by {
            let j = i + 1;
            assert(ops.drop_first()[i] == ops[j]);
            assert(rest[i] == cs[j] && rest[i + 1] == cs[j + 1]);
            assert(popped(cs[j], cs[j + 1]));
        }
        let z: int = 0;
        if ops[z] {
            assert(pushed(cs[z], cs[z + 1]));
        } else {
            assert(popped(cs[z], cs[z + 1]));
        }
        assert(rest.last() == cs.last());
        stack_depth_steps(rest, ops.drop_first());
    }
}

/// A restore with no snapshot on the stack changes neither the state nor
/// the stack.
pub proof fn restore_on_empty_stack_is_harmless(c0: Context2D, c1: Context2D)
    requires
        popped(c0, c1),
        c0.state_stack@.len() == 0,
    ensures
        c1.state == c0.state,
        c1.state_stack@.len() == 0,
{
}

/// A save followed by a restore gives back the path untouched, a state equal
/// to the one before in every attribute, the same stack, and so the same
/// shadow for every draw.
pub proof fn save_then_restore_keeps_path_and_state(c0: Context2D, c1: Context2D, c2: Context2D)
    requires
        pushed(c0, c1),
        popped(c1, c2),
    ensures
        c2.path == c0.path,
        c2.has_surface == c0.has_surface,
        c2.state.same_as(c0.state),
        c2.state_stack@ == c0.state_stack@,
        shadow_of(c2.state) == shadow_of(c0.state),
{
}

/// No shadow is drawn when the shadow color is transparent after the global
/// alpha is applied, whatever the blur and offset; one is drawn when it is
/// not transparent and the offset is not zero.
pub proof fn shadow_needs_alpha_and_displacement(s: State)
    ensures
        with_scaled_alpha(s.shadow_color, s.global_alpha).a == 0 ==> shadow_of(s).is_none(),
        s.shadow_blur.is_zero_spec() && s.shadow_offset.is_zero_spec() ==> shadow_of(s).is_none(),
        with_scaled_alpha(s.shadow_color, s.global_alpha).a > 0 && !s.shadow_offset.is_zero_spec()
            ==> shadow_of(s).is_some(),
{
}

/// Resolving the fill dye twice under the same state gives paints that agree
/// in every setting; likewise for the stroke dye.
pub proof fn dye_resolution_is_idempotent(s: State, p1: Paint, p2: Paint, q1: Paint, q2: Paint)
    requires
        is_fill_paint(s, p1),
        is_fill_paint(s, p2),
        is_stroke_paint(s, q1),
        is_stroke_paint(s, q2),
    ensures
        p1.same_as(p2),
        q1.same_as(q2),
{
}

/// Under the alphabetic baseline mode, text drawn at (x, y) has its
/// alphabetic baseline exactly at y: the baseline offset is zero.
pub proof fn alphabetic_text_sits_on_y(
    c: Context2D,
    text: String,
    x: Scalar,
    y: Scalar,
    paint: Paint,
    cmds: Seq<Command>,
)
    requires
        is_text_draw(c, text, x, y, paint, cmds),
        c.has_surface,
        c.state.text_baseline == Baseline::Alphabetic,
    ensures
        cmds[0]->DrawParagraph_1.y == y,
        cmds[0]->DrawParagraph_2 == BaselineShift::Zero,
{
}

/// The crop-and-resize filter request does not depend on where the
/// destination lies, only on its size: a destination far outside the image
/// asks for the same filtered image as one inside it.
pub proof fn image_filter_ignores_destination_origin(s: State, src: Rect, d1: Rect, d2: Rect)
    requires
        d1.width == d2.width,
        d1.height == d2.height,
    ensures
        filter_request_of(s, src, d1) == filter_request_of(s, src, d2),
{
}

/// A stroke paint carries a dash effect exactly when the dash list is not
/// empty, with the list's intervals and the dash offset as phase; so after
/// the list is cleared the next stroke paint has none.
pub proof fn dash_effect_follows_dash_list(s: State, p: Paint)
    requires
        is_stroke_paint(s, p),
    ensures
        p.dash.is_some() <==> s.line_dash_list@.len() > 0,
        p.dash.is_some() ==> p.dash.unwrap().intervals@ == s.line_dash_list@,
{
}

} // verus!

verus! {

proof fn saved_prefix_kept(cs: Seq<Context2D>, ops: Seq<bool>, k: int)
    requires
        cs.len() == ops.len() + 1,
        forall|i: int| 0 <= i < ops.len() && ops[i] ==> pushed(cs[i], #[trigger] cs[i + 1]),
        forall|i: int| 0 <= i < ops.len() && !ops[i] ==> popped(cs[i], #[trigger] cs[i + 1]),
        1 <= k <= ops.len(),
        forall|j: int|
            1 <= j <= k ==> #[trigger] cs[j].state_stack@.len() >= cs[1].state_stack@.len(),
    ensures
        cs[k].state_stack@.subrange(0, cs[1].state_stack@.len() as int)
            == cs[1].state_stack@.subrange(0, cs[1].state_stack@.len() as int),
    decreases k,
{
    let d = cs[1].state_stack@.len() as int;
    if k > 1 {
        saved_prefix_kept(cs, ops, k - 1);
        let p = k - 1;
        assert(cs[p].state_stack@.len() >= d);
        assert(cs[k].state_stack@.len() >= d);
        if ops[p] {
            assert(pushed(cs[p], cs[p + 1]));
            assert(cs[k].state_stack@.subrange(0, d) =~= cs[p].state_stack@.subrange(0, d)) by {
                assert(cs[k].state_stack@.drop_last() == cs[p].state_stack@);
                assert forall|i: int| 0 <= i < d implies cs[k].state_stack@[i]
                    == cs[p].state_stack@[i] by {
                    assert(cs[k].state_stack@.drop_last()[i] == cs[k].state_stack@[i]);
                }
            }
        } else {
            assert(popped(cs[p], cs[p + 1]));
            if cs[p].state_stack@.len() > 0 {
                assert(cs[k].state_stack@.subrange(0, d) =~= cs[p].state_stack@.subrange(0, d));
            }
        }
    }
}

/// A restore that matches a save gives back the state that was current at
/// the save, whatever saves, restores and style changes came in between:
/// here the run opens with the save, closes with the restore, and in between
/// the stack never drops below the depth that the save reached.
pub proof fn restore_returns_state_of_matching_save(cs: Seq<Context2D>, ops: Seq<bool>)
    requires
        cs.len() == ops.len() + 1,
        ops.len() >= 2,
        forall|i: int| 0 <= i < ops.len() && ops[i] ==> pushed(cs[i], #[trigger] cs[i + 1]),
        forall|i: int| 0 <= i < ops.len() && !ops[i] ==> popped(cs[i], #[trigger] cs[i + 1]),
        ops[0],
        !ops.last(),
        forall|j: int|
            1 <= j < ops.len() ==> #[trigger] cs[j].state_stack@.len() >= cs[1].state_stack@.len(),
        cs[ops.len() - 1].state_stack@.len() == cs[1].state_stack@.len(),
    ensures
        cs.last().state.same_as(cs[0].state),
        cs.last().state_stack@ == cs[0].state_stack@,
{
    let n = ops.len() - 1;
    let d = cs[1].state_stack@.len() as int;
    let z: int = 0;
    assert(pushed(cs[z], cs[z + 1]));
    saved_prefix_kept(cs, ops, n);
    assert(cs[n].state_stack@ =~= cs[1].state_stack@) by {
        assert(cs[n].state_stack@ =~= cs[n].state_stack@.subrange(0, d));
        assert(cs[1].state_stack@ =~= cs[1].state_stack@.subrange(0, d));
    }
    assert(popped(cs[n], cs[n + 1]));
    assert(cs.last() == cs[n + 1]);
}

} // verus!

//! Reparse safety: the text the shorthand printer emits, tokenized back,
//! parses to the entry that was printed.  The keyword lemmas below pin
//! down that no printed token can be swallowed by an earlier slot of the
//! greedy parser.

use vstd::prelude::*;
use crate::text::{ci_eq, lower_code};
use crate::tokens::TokV;
use crate::values::{
    EasingFunction, name_tok, is_reserved_name_text, custom_ident_ok, AnimationDirection,
    AnimationPlayState, AnimationFillMode,
};
use crate::timeline::{
    Scroller, ScrollAxis, LengthPercentageOrAuto, Size2D, ScrollTimeline, ViewTimeline, TimelineV,
    timeline_toks, is_dashed_ident, sp_scroll_fill, sp_view_fill,
};
use crate::shorthand::{
    default_entry, EntryV, SlotsV, empty_slots, sp_fill_one, sp_fill_all, sp_parse_entry,
    entry_of_slots, lemma_fill_step, lemma_fill_stop, name_text, prints_duration, prints_timing,
    prints_delay, prints_iteration, prints_direction, prints_fill, prints_play, seg_duration,
    seg_timing, seg_delay, seg_iteration, seg_direction, seg_fill, seg_play, seg_timeline,
    entry_tokens,
};

verus! {

/// Two sequences differing, up to case, at one position are not
/// case-insensitively equal.
proof fn lemma_ci_refute_at(a: Seq<char>, b: Seq<char>, i: int)
    requires
        0 <= i < a.len(),
        i < b.len(),
        lower_code(a[i]) != lower_code(b[i]),
    ensures
        !ci_eq(a, b),
{
    if ci_eq(a, b) {
        assert(lower_code(a[i]) == lower_code(b[i]));
    }
}

/// Every easing keyword matches itself and no other easing keyword.
proof fn lemma_easing_reflexive(v: EasingFunction)
    ensures
        EasingFunction::sp_from_ident(v.kw_text()) == Some(v),
{
    reveal_strlit("linear");
    reveal_strlit("ease");
    reveal_strlit("ease-in");
    reveal_strlit("ease-out");
    reveal_strlit("ease-in-out");
    reveal_strlit("step-start");
    reveal_strlit("step-end");
    reveal_strlit("infinite");
    reveal_strlit("normal");
    reveal_strlit("reverse");
    reveal_strlit("alternate");
    reveal_strlit("alternate-reverse");
    reveal_strlit("none");
    reveal_strlit("forwards");
    reveal_strlit("backwards");
    reveal_strlit("both");
    reveal_strlit("running");
    reveal_strlit("paused");
    reveal_strlit("auto");
    reveal_strlit("root");
    reveal_strlit("nearest");
    reveal_strlit("self");
    reveal_strlit("block");
    reveal_strlit("inline");
    reveal_strlit("x");
    reveal_strlit("y");
    reveal_strlit("scroll");
    reveal_strlit("view");
    lemma_ci_refute_at("step-end"@, "ease-out"@, 0);
}

/// Every direction keyword matches itself.
proof fn lemma_dir_reflexive(v: AnimationDirection)
    ensures
        AnimationDirection::sp_from_ident(v.kw_text()) == Some(v),
{
    reveal_strlit("linear");
    reveal_strlit("ease");
    reveal_strlit("ease-in");
    reveal_strlit("ease-out");
    reveal_strlit("ease-in-out");
    reveal_strlit("step-start");
    reveal_strlit("step-end");
    reveal_strlit("infinite");
    reveal_strlit("normal");
    reveal_strlit("reverse");
    reveal_strlit("alternate");
    reveal_strlit("alternate-reverse");
    reveal_strlit("none");
    reveal_strlit("forwards");
    reveal_strlit("backwards");
    reveal_strlit("both");
    reveal_strlit("running");
    reveal_strlit("paused");
    reveal_strlit("auto");
    reveal_strlit("root");
    reveal_strlit("nearest");
    reveal_strlit("self");
    reveal_strlit("block");
    reveal_strlit("inline");
    reveal_strlit("x");
    reveal_strlit("y");
    reveal_strlit("scroll");
    reveal_strlit("view");
}

/// Every fill-mode keyword matches itself.
proof fn lemma_fill_reflexive(v: AnimationFillMode)
    ensures
        AnimationFillMode::sp_from_ident(v.kw_text()) == Some(v),
{
    reveal_strlit("linear");
    reveal_strlit("ease");
    reveal_strlit("ease-in");
    reveal_strlit("ease-out");
    reveal_strlit("ease-in-out");
    reveal_strlit("step-start");
    reveal_strlit("step-end");
    reveal_strlit("infinite");
    reveal_strlit("normal");
    reveal_strlit("reverse");
    reveal_strlit("alternate");
    reveal_strlit("alternate-reverse");
    reveal_strlit("none");
    reveal_strlit("forwards");
    reveal_strlit("backwards");
    reveal_strlit("both");
    reveal_strlit("running");
    reveal_strlit("paused");
    reveal_strlit("auto");
    reveal_strlit("root");
    reveal_strlit("nearest");
    reveal_strlit("self");
    reveal_strlit("block");
    reveal_strlit("inline");
    reveal_strlit("x");
    reveal_strlit("y");
    reveal_strlit("scroll");
    reveal_strlit("view");
    lemma_ci_refute_at("both"@, "none"@, 0);
}

/// Every play-state keyword matches itself.
proof fn lemma_play_reflexive(v: AnimationPlayState)
    ensures
        AnimationPlayState::sp_from_ident(v.kw_text()) == Some(v),
{
    reveal_strlit("linear");
    reveal_strlit("ease");
    reveal_strlit("ease-in");
    reveal_strlit("ease-out");
    reveal_strlit("ease-in-out");
    reveal_strlit("step-start");
    reveal_strlit("step-end");
    reveal_strlit("infinite");
    reveal_strlit("normal");
    reveal_strlit("reverse");
    reveal_strlit("alternate");
    reveal_strlit("alternate-reverse");
    reveal_strlit("none");
    reveal_strlit("forwards");
    reveal_strlit("backwards");
    reveal_strlit("both");
    reveal_strlit("running");
    reveal_strlit("paused");
    reveal_strlit("auto");
    reveal_strlit("root");
    reveal_strlit("nearest");
    reveal_strlit("self");
    reveal_strlit("block");
    reveal_strlit("inline");
    reveal_strlit("x");
    reveal_strlit("y");
    reveal_strlit("scroll");
    reveal_strlit("view");
}

/// Every scroller keyword matches itself.
proof fn lemma_scroller_reflexive(v: Scroller)
    ensures
        Scroller::sp_from_ident(v.kw_text()) == Some(v),
{
    reveal_strlit("linear");
    reveal_strlit("ease");
    reveal_strlit("ease-in");
    reveal_strlit("ease-out");
    reveal_strlit("ease-in-out");
    reveal_strlit("step-start");
    reveal_strlit("step-end");
    reveal_strlit("infinite");
    reveal_strlit("normal");
    reveal_strlit("reverse");
    reveal_strlit("alternate");
    reveal_strlit("alternate-reverse");
    reveal_strlit("none");
    reveal_strlit("forwards");
    reveal_strlit("backwards");
    reveal_strlit("both");
    reveal_strlit("running");
    reveal_strlit("paused");
    reveal_strlit("auto");
    reveal_strlit("root");
    reveal_strlit("nearest");
    reveal_strlit("self");
    reveal_strlit("block");
    reveal_strlit("inline");
    reveal_strlit("x");
    reveal_strlit("y");
    reveal_strlit("scroll");
    reveal_strlit("view");
    lemma_ci_refute_at("self"@, "root"@, 0);
}

/// Every axis keyword matches itself, and no axis keyword is a scroller
/// keyword.
proof fn lemma_axis_reflexive(v: ScrollAxis)
    ensures
        ScrollAxis::sp_from_ident(v.kw_text()) == Some(v),
        Scroller::sp_from_ident(v.kw_text()) is None,
{
    reveal_strlit("linear");
    reveal_strlit("ease");
    reveal_strlit("ease-in");
    reveal_strlit("ease-out");
    reveal_strlit("ease-in-out");
    reveal_strlit("step-start");
    reveal_strlit("step-end");
    reveal_strlit("infinite");
    reveal_strlit("normal");
    reveal_strlit("reverse");
    reveal_strlit("alternate");
    reveal_strlit("alternate-reverse");
    reveal_strlit("none");
    reveal_strlit("forwards");
    reveal_strlit("backwards");
    reveal_strlit("both");
    reveal_strlit("running");
    reveal_strlit("paused");
    reveal_strlit("auto");
    reveal_strlit("root");
    reveal_strlit("nearest");
    reveal_strlit("self");
    reveal_strlit("block");
    reveal_strlit("inline");
    reveal_strlit("x");
    reveal_strlit("y");
    reveal_strlit("scroll");
    reveal_strlit("view");
    lemma_ci_refute_at("y"@, "x"@, 0);
}

/// The word `auto` is no axis keyword.
proof fn lemma_auto_not_axis()
    ensures
        ScrollAxis::sp_from_ident("auto"@) is None,
{
    reveal_strlit("linear");
    reveal_strlit("ease");
    reveal_strlit("ease-in");
    reveal_strlit("ease-out");
    reveal_strlit("ease-in-out");
    reveal_strlit("step-start");
    reveal_strlit("step-end");
    reveal_strlit("infinite");
    reveal_strlit("normal");
    reveal_strlit("reverse");
    reveal_strlit("alternate");
    reveal_strlit("alternate-reverse");
    reveal_strlit("none");
    reveal_strlit("forwards");
    reveal_strlit("backwards");
    reveal_strlit("both");
    reveal_strlit("running");
    reveal_strlit("paused");
    reveal_strlit("auto");
    reveal_strlit("root");
    reveal_strlit("nearest");
    reveal_strlit("self");
    reveal_strlit("block");
    reveal_strlit("inline");
    reveal_strlit("x");
    reveal_strlit("y");
    reveal_strlit("scroll");
    reveal_strlit("view");
}

/// The word `infinite` is no easing keyword.
proof fn lemma_infinite_not_easing()
    ensures
        EasingFunction::sp_from_ident("infinite"@) is None,
{
    reveal_strlit("linear");
    reveal_strlit("ease");
    reveal_strlit("ease-in");
    reveal_strlit("ease-out");
    reveal_strlit("ease-in-out");
    reveal_strlit("step-start");
    reveal_strlit("step-end");
    reveal_strlit("infinite");
    reveal_strlit("normal");
    reveal_strlit("reverse");
    reveal_strlit("alternate");
    reveal_strlit("alternate-reverse");
    reveal_strlit("none");
    reveal_strlit("forwards");
    reveal_strlit("backwards");
    reveal_strlit("both");
    reveal_strlit("running");
    reveal_strlit("paused");
    reveal_strlit("auto");
    reveal_strlit("root");
    reveal_strlit("nearest");
    reveal_strlit("self");
    reveal_strlit("block");
    reveal_strlit("inline");
    reveal_strlit("x");
    reveal_strlit("y");
    reveal_strlit("scroll");
    reveal_strlit("view");
    lemma_ci_refute_at("infinite"@, "ease-out"@, 0);
    lemma_ci_refute_at("infinite"@, "step-end"@, 0);
}

/// No direction keyword is an easing keyword or `infinite`.
proof fn lemma_dir_not_earlier(v: AnimationDirection)
    ensures
        EasingFunction::sp_from_ident(v.kw_text()) is None,
        !ci_eq(v.kw_text(), "infinite"@),
{
    reveal_strlit("linear");
    reveal_strlit("ease");
    reveal_strlit("ease-in");
    reveal_strlit("ease-out");
    reveal_strlit("ease-in-out");
    reveal_strlit("step-start");
    reveal_strlit("step-end");
    reveal_strlit("infinite");
    reveal_strlit("normal");
    reveal_strlit("reverse");
    reveal_strlit("alternate");
    reveal_strlit("alternate-reverse");
    reveal_strlit("none");
    reveal_strlit("forwards");
    reveal_strlit("backwards");
    reveal_strlit("both");
    reveal_strlit("running");
    reveal_strlit("paused");
    reveal_strlit("auto");
    reveal_strlit("root");
    reveal_strlit("nearest");
    reveal_strlit("self");
    reveal_strlit("block");
    reveal_strlit("inline");
    reveal_strlit("x");
    reveal_strlit("y");
    reveal_strlit("scroll");
    reveal_strlit("view");
    lemma_ci_refute_at("normal"@, "linear"@, 0);
    lemma_ci_refute_at("reverse"@, "ease-in"@, 0);
}

/// No fill-mode keyword is an easing keyword, `infinite`, or a direction
/// keyword.
proof fn lemma_fill_not_earlier(v: AnimationFillMode)
    ensures
        EasingFunction::sp_from_ident(v.kw_text()) is None,
        !ci_eq(v.kw_text(), "infinite"@),
        AnimationDirection::sp_from_ident(v.kw_text()) is None,
{
    reveal_strlit("linear");
    reveal_strlit("ease");
    reveal_strlit("ease-in");
    reveal_strlit("ease-out");
    reveal_strlit("ease-in-out");
    reveal_strlit("step-start");
    reveal_strlit("step-end");
    reveal_strlit("infinite");
    reveal_strlit("normal");
    reveal_strlit("reverse");
    reveal_strlit("alternate");
    reveal_strlit("alternate-reverse");
    reveal_strlit("none");
    reveal_strlit("forwards");
    reveal_strlit("backwards");
    reveal_strlit("both");
    reveal_strlit("running");
    reveal_strlit("paused");
    reveal_strlit("auto");
    reveal_strlit("root");
    reveal_strlit("nearest");
    reveal_strlit("self");
    reveal_strlit("block");
    reveal_strlit("inline");
    reveal_strlit("x");
    reveal_strlit("y");
    reveal_strlit("scroll");
    reveal_strlit("view");
    lemma_ci_refute_at("none"@, "ease"@, 0);
    lemma_ci_refute_at("both"@, "ease"@, 0);
    lemma_ci_refute_at("forwards"@, "ease-out"@, 0);
    lemma_ci_refute_at("forwards"@, "step-end"@, 0);
    lemma_ci_refute_at("forwards"@, "infinite"@, 0);
    lemma_ci_refute_at("backwards"@, "alternate"@, 0);
}

/// No play-state keyword is an easing keyword, `infinite`, a direction
/// keyword, or a fill-mode keyword.
proof fn lemma_play_not_earlier(v: AnimationPlayState)
    ensures
        EasingFunction::sp_from_ident(v.kw_text()) is None,
        !ci_eq(v.kw_text(), "infinite"@),
        AnimationDirection::sp_from_ident(v.kw_text()) is None,
        AnimationFillMode::sp_from_ident(v.kw_text()) is None,
{
    reveal_strlit("linear");
    reveal_strlit("ease");
    reveal_strlit("ease-in");
    reveal_strlit("ease-out");
    reveal_strlit("ease-in-out");
    reveal_strlit("step-start");
    reveal_strlit("step-end");
    reveal_strlit("infinite");
    reveal_strlit("normal");
    reveal_strlit("reverse");
    reveal_strlit("alternate");
    reveal_strlit("alternate-reverse");
    reveal_strlit("none");
    reveal_strlit("forwards");
    reveal_strlit("backwards");
    reveal_strlit("both");
    reveal_strlit("running");
    reveal_strlit("paused");
    reveal_strlit("auto");
    reveal_strlit("root");
    reveal_strlit("nearest");
    reveal_strlit("self");
    reveal_strlit("block");
    reveal_strlit("inline");
    reveal_strlit("x");
    reveal_strlit("y");
    reveal_strlit("scroll");
    reveal_strlit("view");
    lemma_ci_refute_at("running"@, "ease-in"@, 0);
    lemma_ci_refute_at("paused"@, "linear"@, 0);
    lemma_ci_refute_at("running"@, "reverse"@, 1);
    lemma_ci_refute_at("paused"@, "normal"@, 0);
}

/// The word `none`, printed for a timeline, is no easing, iteration,
/// direction, or play-state keyword, and is not `auto`.
proof fn lemma_none_not_others()
    ensures
        EasingFunction::sp_from_ident("none"@) is None,
        !ci_eq("none"@, "infinite"@),
        AnimationDirection::sp_from_ident("none"@) is None,
        AnimationPlayState::sp_from_ident("none"@) is None,
        !ci_eq("none"@, "auto"@),
        ci_eq("none"@, "none"@),
{
    reveal_strlit("linear");
    reveal_strlit("ease");
    reveal_strlit("ease-in");
    reveal_strlit("ease-out");
    reveal_strlit("ease-in-out");
    reveal_strlit("step-start");
    reveal_strlit("step-end");
    reveal_strlit("infinite");
    reveal_strlit("normal");
    reveal_strlit("reverse");
    reveal_strlit("alternate");
    reveal_strlit("alternate-reverse");
    reveal_strlit("none");
    reveal_strlit("forwards");
    reveal_strlit("backwards");
    reveal_strlit("both");
    reveal_strlit("running");
    reveal_strlit("paused");
    reveal_strlit("auto");
    reveal_strlit("root");
    reveal_strlit("nearest");
    reveal_strlit("self");
    reveal_strlit("block");
    reveal_strlit("inline");
    reveal_strlit("x");
    reveal_strlit("y");
    reveal_strlit("scroll");
    reveal_strlit("view");
    lemma_ci_refute_at("none"@, "ease"@, 0);
    lemma_ci_refute_at("none"@, "auto"@, 0);
}

/// A dashed identifier matches no keyword of any sibling slot.
proof fn lemma_dashed_not_kw(s: Seq<char>)
    requires
        is_dashed_ident(s),
    ensures
        EasingFunction::sp_from_ident(s) is None,
        !ci_eq(s, "infinite"@),
        AnimationDirection::sp_from_ident(s) is None,
        AnimationFillMode::sp_from_ident(s) is None,
        AnimationPlayState::sp_from_ident(s) is None,
        !ci_eq(s, "auto"@),
        !ci_eq(s, "none"@),
{
    reveal_strlit("linear");
    reveal_strlit("ease");
    reveal_strlit("ease-in");
    reveal_strlit("ease-out");
    reveal_strlit("ease-in-out");
    reveal_strlit("step-start");
    reveal_strlit("step-end");
    reveal_strlit("infinite");
    reveal_strlit("normal");
    reveal_strlit("reverse");
    reveal_strlit("alternate");
    reveal_strlit("alternate-reverse");
    reveal_strlit("none");
    reveal_strlit("forwards");
    reveal_strlit("backwards");
    reveal_strlit("both");
    reveal_strlit("running");
    reveal_strlit("paused");
    reveal_strlit("auto");
    reveal_strlit("root");
    reveal_strlit("nearest");
    reveal_strlit("self");
    reveal_strlit("block");
    reveal_strlit("inline");
    reveal_strlit("x");
    reveal_strlit("y");
    reveal_strlit("scroll");
    reveal_strlit("view");
    lemma_ci_refute_at(s, "linear"@, 0);
    lemma_ci_refute_at(s, "ease"@, 0);
    lemma_ci_refute_at(s, "ease-in"@, 0);
    lemma_ci_refute_at(s, "ease-out"@, 0);
    lemma_ci_refute_at(s, "ease-in-out"@, 0);
    lemma_ci_refute_at(s, "step-start"@, 0);
    lemma_ci_refute_at(s, "step-end"@, 0);
    lemma_ci_refute_at(s, "infinite"@, 0);
    lemma_ci_refute_at(s, "normal"@, 0);
    lemma_ci_refute_at(s, "reverse"@, 0);
    lemma_ci_refute_at(s, "alternate"@, 0);
    lemma_ci_refute_at(s, "alternate-reverse"@, 0);
    lemma_ci_refute_at(s, "none"@, 0);
    lemma_ci_refute_at(s, "forwards"@, 0);
    lemma_ci_refute_at(s, "backwards"@, 0);
    lemma_ci_refute_at(s, "both"@, 0);
    lemma_ci_refute_at(s, "running"@, 0);
    lemma_ci_refute_at(s, "paused"@, 0);
    lemma_ci_refute_at(s, "auto"@, 0);
}

/// The printed arguments of a scroll() function parse back to the same
/// value: the two slots fill in the printed order and the loop stops at
/// the closing parenthesis.
proof fn lemma_scroll_args_parse(t: Seq<TokV>, i: int, stl: ScrollTimeline)
    requires
        0 <= i,
        i + stl.spec_arg_toks().len() < t.len(),
        t.subrange(i, i + stl.spec_arg_toks().len() as int) == stl.spec_arg_toks(),
        t[i + stl.spec_arg_toks().len()] is CloseParen,
    ensures
        ScrollTimeline::sp_parse(t, i) == (stl, i + stl.spec_arg_toks().len()),
{
    reveal_with_fuel(sp_scroll_fill, 4);
    let args = stl.spec_arg_toks();
    if stl.scroller != Scroller::Nearest {
        assert(args[0] == t[i]);
        lemma_scroller_reflexive(stl.scroller);
        if stl.axis != ScrollAxis::Block {
            assert(args[1] == t[i + 1]);
            lemma_axis_reflexive(stl.axis);
            assert(sp_scroll_fill(t, i, None, None) == (
                Some(stl.scroller),
                Some(stl.axis),
                i + 2,
            ));
        } else {
            assert(sp_scroll_fill(t, i, None, None) == (
                Some(stl.scroller),
                None::<ScrollAxis>,
                i + 1,
            ));
        }
    } else {
        if stl.axis != ScrollAxis::Block {
            assert(args[0] == t[i]);
            lemma_axis_reflexive(stl.axis);
            assert(sp_scroll_fill(t, i, None, None) == (
                None::<Scroller>,
                Some(stl.axis),
                i + 1,
            ));
        } else {
            assert(sp_scroll_fill(t, i, None, None) == (
                None::<Scroller>,
                None::<ScrollAxis>,
                i,
            ));
        }
    }
}

/// The printed arguments of a view() function parse back to the same
/// value.
proof fn lemma_view_args_parse(t: Seq<TokV>, i: int, vt: ViewTimeline)
    requires
        0 <= i,
        i + vt.spec_arg_toks().len() < t.len(),
        t.subrange(i, i + vt.spec_arg_toks().len() as int) == vt.spec_arg_toks(),
        t[i + vt.spec_arg_toks().len()] is CloseParen,
    ensures
        ViewTimeline::sp_parse(t, i) == (vt, i + vt.spec_arg_toks().len()),
{
    reveal_with_fuel(sp_view_fill, 4);
    let args = vt.spec_arg_toks();
    let auto2 = Size2D(LengthPercentageOrAuto::Auto, LengthPercentageOrAuto::Auto);
    lemma_auto_not_axis();
    if vt.axis != ScrollAxis::Block {
        assert(args[0] == t[i]);
        lemma_axis_reflexive(vt.axis);
        if vt.inset != auto2 {
            assert(args[1] == t[i + 1]);
            if vt.inset.1 == vt.inset.0 {
                assert(sp_view_fill(t, i, None, None) == (
                    Some(vt.axis),
                    Some(Size2D(vt.inset.0, vt.inset.0)),
                    i + 2,
                ));
                assert(Size2D(vt.inset.0, vt.inset.0) == vt.inset);
            } else {
                assert(args[2] == t[i + 2]);
                assert(sp_view_fill(t, i, None, None) == (
                    Some(vt.axis),
                    Some(vt.inset),
                    i + 3,
                ));
            }
        } else {
            assert(sp_view_fill(t, i, None, None) == (Some(vt.axis), None::<Size2D>, i + 1));
        }
    } else {
        if vt.inset != auto2 {
            assert(args[0] == t[i]);
            if vt.inset.1 == vt.inset.0 {
                assert(sp_view_fill(t, i, None, None) == (
                    None::<ScrollAxis>,
                    Some(Size2D(vt.inset.0, vt.inset.0)),
                    i + 1,
                ));
                assert(Size2D(vt.inset.0, vt.inset.0) == vt.inset);
            } else {
                assert(args[1] == t[i + 1]);
                assert(sp_view_fill(t, i, None, None) == (
                    None::<ScrollAxis>,
                    Some(vt.inset),
                    i + 2,
                ));
            }
        } else {
            assert(sp_view_fill(t, i, None, None) == (None::<ScrollAxis>, None::<Size2D>, i));
        }
    }
}

/// The printed tokens of a non-default timeline parse back to the same
/// timeline.
proof fn lemma_timeline_parse(t: Seq<TokV>, i: int, tl: TimelineV)
    requires
        tl != TimelineV::Auto,
        tl is DashedIdent ==> is_dashed_ident(tl->DashedIdent_0),
        0 <= i,
        i + timeline_toks(tl).len() <= t.len(),
        t.subrange(i, i + timeline_toks(tl).len() as int) == timeline_toks(tl),
    ensures
        crate::timeline::AnimationTimeline::sp_parse(t, i) == Some(
            (tl, i + timeline_toks(tl).len()),
        ),
{
    reveal_strlit("auto");
    reveal_strlit("none");
    reveal_strlit("scroll");
    reveal_strlit("view");
    let toks = timeline_toks(tl);
    match tl {
        TimelineV::Auto => {},
        TimelineV::NoneKw => {
            assert(toks[0] == t[i]);
            lemma_none_not_others();
        },
        TimelineV::DashedIdent(s) => {
            assert(toks[0] == t[i]);
            lemma_dashed_not_kw(s);
        },
        TimelineV::Scroll(stl) => {
            assert(toks[0] == t[i]);
            let alen = stl.spec_arg_toks().len() as int;
            assert forall|j: int| 0 <= j < alen implies t.subrange(i + 1, i + 1 + alen)[j]
                == stl.spec_arg_toks()[j] by {
                assert(t.subrange(i, i + toks.len() as int)[1 + j] == toks[1 + j]);
            }
            assert(t.subrange(i + 1, i + 1 + alen) =~= stl.spec_arg_toks());
            assert(t.subrange(i, i + toks.len() as int)[1 + alen] == toks[1 + alen]);
            assert(t[i + 1 + alen] == toks[1 + alen]);
            lemma_scroll_args_parse(t, i + 1, stl);
        },
        TimelineV::View(vt) => {
            assert(toks[0] == t[i]);
            let alen = vt.spec_arg_toks().len() as int;
            assert forall|j: int| 0 <= j < alen implies t.subrange(i + 1, i + 1 + alen)[j]
                == vt.spec_arg_toks()[j] by {
                assert(t.subrange(i, i + toks.len() as int)[1 + j] == toks[1 + j]);
            }
            assert(t.subrange(i + 1, i + 1 + alen) =~= vt.spec_arg_toks());
            assert(t.subrange(i, i + toks.len() as int)[1 + alen] == toks[1 + alen]);
            assert(t[i + 1 + alen] == toks[1 + alen]);
            lemma_view_args_parse(t, i + 1, vt);
        },
    }
}

/// Validity of an entry: an identifier name is a custom identifier and
/// not the `none` keyword, and a named timeline is a dashed identifier.
pub open spec fn entry_wf(e: EntryV) -> bool {
    &&& (e.name is Ident ==> !ci_eq(e.name->Ident_0, "none"@) && custom_ident_ok(e.name->Ident_0))
    &&& (e.timeline is DashedIdent ==> is_dashed_ident(e.timeline->DashedIdent_0))
}

/// The entries whose printed form parses back to the very same value:
/// every valid entry except the four below, on which the grammar itself
/// loses information.  A `none` entry prints no other field, so only the
/// all-default entry survives; a quoted-string name prints unquoted, and
/// so reparses as an identifier, unless its text is reserved; an
/// identifier name equal to `infinite` only up to case is swallowed by
/// the iteration-count slot, which matches case-insensitively while the
/// printer compares exactly; and a printed `none` timeline is swallowed
/// by an unprinted fill-mode slot.
pub open spec fn reparse_safe(e: EntryV) -> bool {
    &&& entry_wf(e)
    &&& (e.name is NoneKw ==> e == default_entry())
    &&& (e.name is Str ==> is_reserved_name_text(e.name->Str_0))
    &&& (ci_eq(name_text(e), "infinite"@) ==> name_text(e) == "infinite"@)
    &&& (e.timeline is NoneKw ==> prints_fill(e))
}

/// The number of tokens printed ahead of the name.
pub open spec fn lead_token_count(e: EntryV) -> int {
    seg_duration(e).len() + seg_timing(e).len() + seg_delay(e).len() + seg_iteration(e).len()
        + seg_direction(e).len() + seg_fill(e).len() + seg_play(e).len() as int
}

/// The number of tokens in the first four printed lead fields.
pub open spec fn mid_token_count(e: EntryV) -> int {
    seg_duration(e).len() + seg_timing(e).len() + seg_delay(e).len() + seg_iteration(
        e,
    ).len() as int
}

/// The parser's slot state after the first four printed lead fields.
pub open spec fn mid_slots(e: EntryV) -> SlotsV {
    SlotsV {
        duration: if prints_duration(e) {
            Some(e.duration)
        } else {
            None
        },
        timing_function: if prints_timing(e) {
            Some(e.timing_function)
        } else {
            None
        },
        delay: if prints_delay(e) {
            Some(e.delay)
        } else {
            None
        },
        iteration_count: if prints_iteration(e) {
            Some(e.iteration_count)
        } else {
            None
        },
        direction: None,
        fill_mode: None,
        play_state: None,
        name: None,
        timeline: None,
    }
}

/// The parser's slot state after consuming the printed lead fields.
pub open spec fn lead_slots(e: EntryV) -> SlotsV {
    SlotsV {
        duration: if prints_duration(e) {
            Some(e.duration)
        } else {
            None
        },
        timing_function: if prints_timing(e) {
            Some(e.timing_function)
        } else {
            None
        },
        delay: if prints_delay(e) {
            Some(e.delay)
        } else {
            None
        },
        iteration_count: if prints_iteration(e) {
            Some(e.iteration_count)
        } else {
            None
        },
        direction: if prints_direction(e) {
            Some(e.direction)
        } else {
            None
        },
        fill_mode: if prints_fill(e) {
            Some(e.fill_mode)
        } else {
            None
        },
        play_state: if prints_play(e) {
            Some(e.play_state)
        } else {
            None
        },
        name: None,
        timeline: None,
    }
}

/// The greedy parser consumes the printed duration, timing, delay and
/// iteration fields into exactly their own slots.
#[verifier::rlimit(100)]
#[verifier::spinoff_prover]
proof fn lemma_lead_fill_first(e: EntryV)
    requires
        reparse_safe(e),
        !(e.name is NoneKw),
    ensures
        sp_fill_all(entry_tokens(e), 0, empty_slots()) == sp_fill_all(
            entry_tokens(e),
            mid_token_count(e),
            mid_slots(e),
        ),
{
    let t = entry_tokens(e);
    let p0: int = 0;
    let p1 = p0 + seg_duration(e).len();
    let p2 = p1 + seg_timing(e).len();
    let p3 = p2 + seg_delay(e).len();
    let p4 = p3 + seg_iteration(e).len();
    assert(t.len() >= p4 + 1);
    let sl0 = empty_slots();
    let sl1 = if prints_duration(e) {
        SlotsV { duration: Some(e.duration), ..sl0 }
    } else {
        sl0
    };
    let sl2 = if prints_timing(e) {
        SlotsV { timing_function: Some(e.timing_function), ..sl1 }
    } else {
        sl1
    };
    let sl3 = if prints_delay(e) {
        SlotsV { delay: Some(e.delay), ..sl2 }
    } else {
        sl2
    };
    let sl4 = if prints_iteration(e) {
        SlotsV { iteration_count: Some(e.iteration_count), ..sl3 }
    } else {
        sl3
    };
    assert(sp_fill_all(t, p0, sl0) == sp_fill_all(t, p1, sl1)) by {
        if prints_duration(e) {
            assert(t[p0] == TokV::Time(e.duration));
            assert(sp_fill_one(t, p0, sl0) == Some((sl1, p1)));
            lemma_fill_step(t, p0, sl0, sl1, p1);
        }
    }
    assert(sp_fill_all(t, p1, sl1) == sp_fill_all(t, p2, sl2)) by {
        if prints_timing(e) {
            assert(t[p1] == TokV::Ident(e.timing_function.kw_text()));
            lemma_easing_reflexive(e.timing_function);
            assert(sp_fill_one(t, p1, sl1) == Some((sl2, p2)));
            lemma_fill_step(t, p1, sl1, sl2, p2);
        }
    }
    assert(sp_fill_all(t, p2, sl2) == sp_fill_all(t, p3, sl3)) by {
        if prints_delay(e) {
            assert(t[p2] == TokV::Time(e.delay));
            assert(sp_fill_one(t, p2, sl2) == Some((sl3, p3)));
            lemma_fill_step(t, p2, sl2, sl3, p3);
        }
    }
    assert(sp_fill_all(t, p3, sl3) == sp_fill_all(t, p4, sl4)) by {
        if prints_iteration(e) {
            assert(t[p3] == e.iteration_count.spec_tok());
            lemma_infinite_not_easing();
            assert(sp_fill_one(t, p3, sl3) == Some((sl4, p4)));
            lemma_fill_step(t, p3, sl3, sl4, p4);
        }
    }
    assert(sl4 == mid_slots(e));
}

/// The greedy parser then consumes the printed direction, fill-mode and
/// play-state fields into exactly their own slots.
#[verifier::rlimit(100)]
#[verifier::spinoff_prover]
proof fn lemma_lead_fill_second(e: EntryV)
    requires
        reparse_safe(e),
        !(e.name is NoneKw),
    ensures
        sp_fill_all(entry_tokens(e), mid_token_count(e), mid_slots(e)) == sp_fill_all(
            entry_tokens(e),
            lead_token_count(e),
            lead_slots(e),
        ),
{
    let t = entry_tokens(e);
    let p4 = mid_token_count(e);
    let p5 = p4 + seg_direction(e).len();
    let p6 = p5 + seg_fill(e).len();
    let p7 = p6 + seg_play(e).len();
    assert(t.len() >= p7 + 1);
    let sl4 = mid_slots(e);
    let sl5 = if prints_direction(e) {
        SlotsV { direction: Some(e.direction), ..sl4 }
    } else {
        sl4
    };
    let sl6 = if prints_fill(e) {
        SlotsV { fill_mode: Some(e.fill_mode), ..sl5 }
    } else {
        sl5
    };
    let sl7 = if prints_play(e) {
        SlotsV { play_state: Some(e.play_state), ..sl6 }
    } else {
        sl6
    };
    assert(sp_fill_all(t, p4, sl4) == sp_fill_all(t, p5, sl5)) by {
        if prints_direction(e) {
            assert(t[p4] == TokV::Ident(e.direction.kw_text()));
            lemma_dir_not_earlier(e.direction);
            lemma_dir_reflexive(e.direction);
            assert(sp_fill_one(t, p4, sl4) == Some((sl5, p5)));
            lemma_fill_step(t, p4, sl4, sl5, p5);
        }
    }
    assert(sp_fill_all(t, p5, sl5) == sp_fill_all(t, p6, sl6)) by {
        if prints_fill(e) {
            assert(t[p5] == TokV::Ident(e.fill_mode.kw_text()));
            lemma_fill_not_earlier(e.fill_mode);
            lemma_fill_reflexive(e.fill_mode);
            assert(sp_fill_one(t, p5, sl5) == Some((sl6, p6)));
            lemma_fill_step(t, p5, sl5, sl6, p6);
        }
    }
    assert(sp_fill_all(t, p6, sl6) == sp_fill_all(t, p7, sl7)) by {
        if prints_play(e) {
            assert(t[p6] == TokV::Ident(e.play_state.kw_text()));
            lemma_play_not_earlier(e.play_state);
            lemma_play_reflexive(e.play_state);
            assert(sp_fill_one(t, p6, sl6) == Some((sl7, p7)));
            lemma_fill_step(t, p6, sl6, sl7, p7);
        }
    }
    assert(sl7 == lead_slots(e));
}

/// Round-trip: parsing the tokens an entry prints as, with the greedy
/// order-independent shorthand grammar, yields the entry back and
/// consumes every printed token.  This holds for every reparse-safe
/// entry, in particular whatever keyword the name collides with: the
/// printer re-prints exactly the default fields whose slot would
/// otherwise swallow the name.
#[verifier::rlimit(100)]
#[verifier::spinoff_prover]
pub proof fn lemma_entry_round_trip(e: EntryV)
    requires
        reparse_safe(e),
    ensures
        sp_parse_entry(entry_tokens(e), 0) == (e, entry_tokens(e).len() as int),
{
    let t = entry_tokens(e);
    if e.name is NoneKw {
        lemma_none_not_others();
        lemma_fill_reflexive(AnimationFillMode::NoneKw);
        let s1 = SlotsV { fill_mode: Some(AnimationFillMode::NoneKw), ..empty_slots() };
        assert(sp_fill_one(t, 0, empty_slots()) == Some((s1, 1int)));
        lemma_fill_step(t, 0, empty_slots(), s1, 1);
        lemma_fill_stop(t, 1, s1);
        assert(entry_of_slots(s1) == e);
    } else {
        lemma_lead_fill_first(e);
        lemma_lead_fill_second(e);
        let p7 = lead_token_count(e);
        let p8 = p7 + 1;
        let p9 = p8 + seg_timeline(e).len();
        assert(t.len() == p9);
        let sl7 = lead_slots(e);
        let sl8 = SlotsV { name: Some(e.name), ..sl7 };
        let sl9 = if e.timeline != TimelineV::Auto {
            SlotsV { timeline: Some(e.timeline), ..sl8 }
        } else {
            sl8
        };
        assert(sp_fill_all(t, p7, sl7) == sp_fill_all(t, p8, sl8)) by {
            assert(t[p7] == name_tok(e.name));
            assert(sp_fill_one(t, p7, sl7) == Some((sl8, p8)));
            lemma_fill_step(t, p7, sl7, sl8, p8);
        }
        assert(sp_fill_all(t, p8, sl8) == sp_fill_all(t, p9, sl9)) by {
            if e.timeline != TimelineV::Auto {
                assert forall|j: int| 0 <= j < seg_timeline(e).len() implies t.subrange(
                    p8,
                    p9,
                )[j] == timeline_toks(e.timeline)[j] by {}
                assert(t.subrange(p8, p9) =~= timeline_toks(e.timeline));
                match e.timeline {
                    TimelineV::NoneKw => {
                        lemma_none_not_others();
                    },
                    TimelineV::DashedIdent(dn) => {
                        lemma_dashed_not_kw(dn);
                    },
                    _ => {},
                }
                lemma_timeline_parse(t, p8, e.timeline);
                assert(sp_fill_one(t, p8, sl8) == Some((sl9, p9)));
                lemma_fill_step(t, p8, sl8, sl9, p9);
            }
        }
        lemma_fill_stop(t, p9, sl9);
        assert(entry_of_slots(sl9) == e);
    }
}

/// Functional-timeline argument order independence: the two arguments of
/// a scroll() block parse to the same value whichever of the two orders
/// they come in.
pub proof fn lemma_scroll_argument_order(sc: Scroller, ax: ScrollAxis)
    ensures
        ({
            let t1 = seq![TokV::Ident(sc.kw_text()), TokV::Ident(ax.kw_text()), TokV::CloseParen];
            let t2 = seq![TokV::Ident(ax.kw_text()), TokV::Ident(sc.kw_text()), TokV::CloseParen];
            ScrollTimeline::sp_parse(t1, 0) == (ScrollTimeline { scroller: sc, axis: ax }, 2int)
                && ScrollTimeline::sp_parse(t2, 0) == (
                ScrollTimeline { scroller: sc, axis: ax },
                2int,
            )
        }),
{
    reveal_with_fuel(sp_scroll_fill, 4);
    lemma_scroller_reflexive(sc);
    lemma_axis_reflexive(ax);
    let t1 = seq![TokV::Ident(sc.kw_text()), TokV::Ident(ax.kw_text()), TokV::CloseParen];
    let t2 = seq![TokV::Ident(ax.kw_text()), TokV::Ident(sc.kw_text()), TokV::CloseParen];
    assert(sp_scroll_fill(t1, 0, None, None) == (Some(sc), Some(ax), 2int));
    assert(sp_scroll_fill(t2, 0, None, None) == (Some(sc), Some(ax), 2int));
}

} // verus!

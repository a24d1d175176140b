//! The animation-timeline value grammar: keyword forms, named timelines,
//! and the scroll() and view() functional forms, whose two arguments may
//! come in either order.

use vstd::prelude::*;
use crate::text::{ci_eq, eq_ignore_case};
use crate::tokens::{Token, TokV, toks_view, step_view, render, render_tokens};

verus! {

/// The scroll container argument of the scroll() function.
#[derive(Debug, Clone, Copy, PartialEq, Eq, Structural)]
pub enum Scroller {
    /// The document viewport.
    Root,
    /// The nearest ancestor scroll container, the default.
    Nearest,
    /// The element's own principal box.
    SelfElement,
}

impl Default for Scroller {
    /// The default scroller is `nearest`.
    fn default() -> (r: Self)
        ensures
            r == Scroller::Nearest,
    {
        Scroller::Nearest
    }
}

impl Scroller {
    /// The canonical keyword text.
    pub open spec fn kw_text(self) -> Seq<char> {
        match self {
            Scroller::Root => "root"@,
            Scroller::Nearest => "nearest"@,
            Scroller::SelfElement => "self"@,
        }
    }

    /// The keyword, matched case-insensitively.
    pub open spec fn sp_from_ident(s: Seq<char>) -> Option<Scroller> {
        if ci_eq(s, "root"@) {
            Some(Scroller::Root)
        } else if ci_eq(s, "nearest"@) {
            Some(Scroller::Nearest)
        } else if ci_eq(s, "self"@) {
            Some(Scroller::SelfElement)
        } else {
            None
        }
    }

    /// Parses a scroller: a single keyword identifier.
    pub open spec fn sp_parse(t: Seq<TokV>, i: int) -> Option<(Scroller, int)> {
        if 0 <= i < t.len() {
            match t[i] {
                TokV::Ident(s) => match Self::sp_from_ident(s) {
                    Some(v) => Some((v, i + 1)),
                    None => None,
                },
                _ => None,
            }
        } else {
            None
        }
    }

    /// Parses a scroller from the token stream, as executable code.
    pub fn parse(toks: &Vec<Token>, i: usize) -> (r: Option<(Self, usize)>)
        requires
            i <= toks@.len(),
        ensures
            step_view(r) == Self::sp_parse(toks_view(toks@), i as int),
            r is Some ==> i < r->Some_0.1 <= toks@.len(),
    {
        if i < toks.len() {
            match &toks[i] {
                Token::Ident(s) => if eq_ignore_case(s.as_str(), "root") {
                    Some((Scroller::Root, i + 1))
                } else if eq_ignore_case(s.as_str(), "nearest") {
                    Some((Scroller::Nearest, i + 1))
                } else if eq_ignore_case(s.as_str(), "self") {
                    Some((Scroller::SelfElement, i + 1))
                } else {
                    None
                },
                _ => None,
            }
        } else {
            None
        }
    }

    /// Appends the canonical keyword to `dest`.
    pub fn to_css(&self, dest: &mut String)
        ensures
            final(dest)@ == old(dest)@ + self.kw_text(),
    {
        match self {
            Scroller::Root => dest.append("root"),
            Scroller::Nearest => dest.append("nearest"),
            Scroller::SelfElement => dest.append("self"),
        }
    }
}

/// The axis argument of the scroll() and view() functions.
#[derive(Debug, Clone, Copy, PartialEq, Eq, Structural)]
pub enum ScrollAxis {
    /// Progress along the block axis, the default.
    Block,
    /// Progress along the inline axis.
    Inline,
    /// Progress along the horizontal axis.
    X,
    /// Progress along the vertical axis.
    Y,
}

impl Default for ScrollAxis {
    /// The default axis is `block`.
    fn default() -> (r: Self)
        ensures
            r == ScrollAxis::Block,
    {
        ScrollAxis::Block
    }
}

impl ScrollAxis {
    /// The canonical keyword text.
    pub open spec fn kw_text(self) -> Seq<char> {
        match self {
            ScrollAxis::Block => "block"@,
            ScrollAxis::Inline => "inline"@,
            ScrollAxis::X => "x"@,
            ScrollAxis::Y => "y"@,
        }
    }

    /// The keyword, matched case-insensitively.
    pub open spec fn sp_from_ident(s: Seq<char>) -> Option<ScrollAxis> {
        if ci_eq(s, "block"@) {
            Some(ScrollAxis::Block)
        } else if ci_eq(s, "inline"@) {
            Some(ScrollAxis::Inline)
        } else if ci_eq(s, "x"@) {
            Some(ScrollAxis::X)
        } else if ci_eq(s, "y"@) {
            Some(ScrollAxis::Y)
        } else {
            None
        }
    }

    /// Parses an axis: a single keyword identifier.
    pub open spec fn sp_parse(t: Seq<TokV>, i: int) -> Option<(ScrollAxis, int)> {
        if 0 <= i < t.len() {
            match t[i] {
                TokV::Ident(s) => match Self::sp_from_ident(s) {
                    Some(v) => Some((v, i + 1)),
                    None => None,
                },
                _ => None,
            }
        } else {
            None
        }
    }

    /// Parses an axis from the token stream, as executable code.
    pub fn parse(toks: &Vec<Token>, i: usize) -> (r: Option<(Self, usize)>)
        requires
            i <= toks@.len(),
        ensures
            step_view(r) == Self::sp_parse(toks_view(toks@), i as int),
            r is Some ==> i < r->Some_0.1 <= toks@.len(),
    {
        if i < toks.len() {
            match &toks[i] {
                Token::Ident(s) => if eq_ignore_case(s.as_str(), "block") {
                    Some((ScrollAxis::Block, i + 1))
                } else if eq_ignore_case(s.as_str(), "inline") {
                    Some((ScrollAxis::Inline, i + 1))
                } else if eq_ignore_case(s.as_str(), "x") {
                    Some((ScrollAxis::X, i + 1))
                } else if eq_ignore_case(s.as_str(), "y") {
                    Some((ScrollAxis::Y, i + 1))
                } else {
                    None
                },
                _ => None,
            }
        } else {
            None
        }
    }

    /// Appends the canonical keyword to `dest`.
    pub fn to_css(&self, dest: &mut String)
        ensures
            final(dest)@ == old(dest)@ + self.kw_text(),
    {
        match self {
            ScrollAxis::Block => dest.append("block"),
            ScrollAxis::Inline => dest.append("inline"),
            ScrollAxis::X => dest.append("x"),
            ScrollAxis::Y => dest.append("y"),
        }
    }
}

/// A length, a percentage, or the `auto` keyword, used by the view()
/// function's inset argument.
#[derive(Debug, Clone, Copy, PartialEq, Eq, Structural)]
pub enum LengthPercentageOrAuto {
    /// The `auto` keyword.
    Auto,
    /// A length in whole pixels.
    Px(i64),
    /// A percentage.
    Percent(i64),
}

impl LengthPercentageOrAuto {
    /// The token this value prints as.
    pub open spec fn spec_tok(self) -> TokV {
        match self {
            LengthPercentageOrAuto::Auto => TokV::Ident("auto"@),
            LengthPercentageOrAuto::Px(n) => TokV::Length(n),
            LengthPercentageOrAuto::Percent(n) => TokV::Percentage(n),
        }
    }

    /// The token this value prints as, as executable code.
    pub fn to_token(&self) -> (t: Token)
        ensures
            t@ == self.spec_tok(),
    {
        match self {
            LengthPercentageOrAuto::Auto => Token::Ident(String::from_str("auto")),
            LengthPercentageOrAuto::Px(n) => Token::Length(*n),
            LengthPercentageOrAuto::Percent(n) => Token::Percentage(*n),
        }
    }

    /// Parses a length, percentage, or `auto`.
    pub open spec fn sp_parse(t: Seq<TokV>, i: int) -> Option<(LengthPercentageOrAuto, int)> {
        if 0 <= i < t.len() {
            match t[i] {
                TokV::Ident(s) => if ci_eq(s, "auto"@) {
                    Some((LengthPercentageOrAuto::Auto, i + 1))
                } else {
                    None
                },
                TokV::Length(n) => Some((LengthPercentageOrAuto::Px(n), i + 1)),
                TokV::Percentage(n) => Some((LengthPercentageOrAuto::Percent(n), i + 1)),
                _ => None,
            }
        } else {
            None
        }
    }

    /// Parses a length, percentage, or `auto` from the token stream.
    pub fn parse(toks: &Vec<Token>, i: usize) -> (r: Option<(Self, usize)>)
        requires
            i <= toks@.len(),
        ensures
            step_view(r) == Self::sp_parse(toks_view(toks@), i as int),
            r is Some ==> i < r->Some_0.1 <= toks@.len(),
    {
        if i < toks.len() {
            match &toks[i] {
                Token::Ident(s) => if eq_ignore_case(s.as_str(), "auto") {
                    Some((LengthPercentageOrAuto::Auto, i + 1))
                } else {
                    None
                },
                Token::Length(n) => Some((LengthPercentageOrAuto::Px(*n), i + 1)),
                Token::Percentage(n) => Some((LengthPercentageOrAuto::Percent(*n), i + 1)),
                _ => None,
            }
        } else {
            None
        }
    }
}

/// A two-dimensional size: one value per axis.
#[derive(Debug, Clone, Copy, PartialEq, Eq, Structural)]
pub struct Size2D(pub LengthPercentageOrAuto, pub LengthPercentageOrAuto);

impl Size2D {
    /// The size whose two components are both `auto`.
    pub fn both_auto() -> (r: Self)
        ensures
            r == Size2D(LengthPercentageOrAuto::Auto, LengthPercentageOrAuto::Auto),
    {
        Size2D(LengthPercentageOrAuto::Auto, LengthPercentageOrAuto::Auto)
    }

    /// Parses a size: one value, optionally followed by a second; a missing
    /// second component repeats the first.
    pub open spec fn sp_parse(t: Seq<TokV>, i: int) -> Option<(Size2D, int)> {
        match LengthPercentageOrAuto::sp_parse(t, i) {
            Some((a, j)) => match LengthPercentageOrAuto::sp_parse(t, j) {
                Some((b, k)) => Some((Size2D(a, b), k)),
                None => Some((Size2D(a, a), j)),
            },
            None => None,
        }
    }

    /// Parses a size from the token stream, as executable code.
    pub fn parse(toks: &Vec<Token>, i: usize) -> (r: Option<(Self, usize)>)
        requires
            i <= toks@.len(),
        ensures
            step_view(r) == Self::sp_parse(toks_view(toks@), i as int),
            r is Some ==> i < r->Some_0.1 <= toks@.len(),
    {
        match LengthPercentageOrAuto::parse(toks, i) {
            Some((a, j)) => match LengthPercentageOrAuto::parse(toks, j) {
                Some((b, k)) => Some((Size2D(a, b), k)),
                None => Some((Size2D(a, a), j)),
            },
            None => None,
        }
    }

    /// The tokens this size prints as: the second component is omitted when
    /// it equals the first.
    pub open spec fn spec_toks(self) -> Seq<TokV> {
        if self.1 == self.0 {
            seq![self.0.spec_tok()]
        } else {
            seq![self.0.spec_tok(), self.1.spec_tok()]
        }
    }
}

/// The scroll() functional timeline.
#[derive(Debug, Clone, Copy, PartialEq, Eq, Structural)]
pub struct ScrollTimeline {
    /// Which element serves as the scroll container.
    pub scroller: Scroller,
    /// Which axis of the scroll container drives the timeline.
    pub axis: ScrollAxis,
}

/// The greedy fill of the two scroll() argument slots: each pass takes
/// whichever of the two sub-grammars matches next and is still unfilled,
/// in either order, and stops when neither advances.
pub open spec fn sp_scroll_fill(
    t: Seq<TokV>,
    i: int,
    sc: Option<Scroller>,
    ax: Option<ScrollAxis>,
) -> (Option<Scroller>, Option<ScrollAxis>, int)
    decreases t.len() - i,
{
    if sc is None && Scroller::sp_parse(t, i) is Some {
        let (v, j) = Scroller::sp_parse(t, i)->Some_0;
        if i < j <= t.len() {
            sp_scroll_fill(t, j, Some(v), ax)
        } else {
            (sc, ax, i)
        }
    } else if ax is None && ScrollAxis::sp_parse(t, i) is Some {
        let (v, j) = ScrollAxis::sp_parse(t, i)->Some_0;
        if i < j <= t.len() {
            sp_scroll_fill(t, j, sc, Some(v))
        } else {
            (sc, ax, i)
        }
    } else {
        (sc, ax, i)
    }
}

impl ScrollTimeline {
    /// Parses the arguments of a scroll() function: a scroller and an axis,
    /// each optional, in either order; unfilled slots take their defaults.
    /// Returns the value and the position of the first unconsumed token.
    pub open spec fn sp_parse(t: Seq<TokV>, i: int) -> (ScrollTimeline, int) {
        let (sc, ax, j) = sp_scroll_fill(t, i, None, None);
        (
            ScrollTimeline {
                scroller: match sc {
                    Some(v) => v,
                    None => Scroller::Nearest,
                },
                axis: match ax {
                    Some(v) => v,
                    None => ScrollAxis::Block,
                },
            },
            j,
        )
    }

    /// Parses scroll() arguments from the token stream, as executable code.
    pub fn parse(toks: &Vec<Token>, i: usize) -> (r: (Self, usize))
        requires
            i <= toks@.len(),
        ensures
            Self::sp_parse(toks_view(toks@), i as int) == (r.0, r.1 as int),
            i <= r.1 <= toks@.len(),
    {
        let ghost tv = toks_view(toks@);
        let mut scroller: Option<Scroller> = None;
        let mut axis: Option<ScrollAxis> = None;
        let mut pos: usize = i;
        loop
            invariant
                i <= pos <= toks@.len(),
                tv == toks_view(toks@),
                sp_scroll_fill(tv, i as int, None, None) == sp_scroll_fill(
                    tv,
                    pos as int,
                    scroller,
                    axis,
                ),
            ensures
                i <= pos <= toks@.len(),
                sp_scroll_fill(tv, i as int, None, None) == (scroller, axis, pos as int),
            decreases toks@.len() - pos,
        {
            if scroller.is_none() {
                match Scroller::parse(toks, pos) {
                    Some((v, j)) => {
                        scroller = Some(v);
                        pos = j;
                        continue ;
                    },
                    None => {},
                }
            }
            if axis.is_none() {
                match ScrollAxis::parse(toks, pos) {
                    Some((v, j)) => {
                        axis = Some(v);
                        pos = j;
                        continue ;
                    },
                    None => {},
                }
            }
            break ;
        }
        let st = ScrollTimeline {
            scroller: match scroller {
                Some(v) => v,
                None => Scroller::Nearest,
            },
            axis: match axis {
                Some(v) => v,
                None => ScrollAxis::Block,
            },
        };
        (st, pos)
    }

    /// The argument tokens this timeline prints as: each component is
    /// omitted when it equals its default.
    pub open spec fn spec_arg_toks(self) -> Seq<TokV> {
        let sc: Seq<TokV> = if self.scroller != Scroller::Nearest {
            seq![TokV::Ident(self.scroller.kw_text())]
        } else {
            Seq::<TokV>::empty()
        };
        let ax: Seq<TokV> = if self.axis != ScrollAxis::Block {
            seq![TokV::Ident(self.axis.kw_text())]
        } else {
            Seq::<TokV>::empty()
        };
        sc + ax
    }
}

/// The view() functional timeline.
#[derive(Debug, Clone, Copy, PartialEq, Eq, Structural)]
pub struct ViewTimeline {
    /// Which axis of the scroll container drives the timeline.
    pub axis: ScrollAxis,
    /// An adjustment of the view progress visibility range.
    pub inset: Size2D,
}

/// The greedy fill of the two view() argument slots, like the scroll()
/// fill: axis and inset, each optional, in either order.
pub open spec fn sp_view_fill(
    t: Seq<TokV>,
    i: int,
    ax: Option<ScrollAxis>,
    inset: Option<Size2D>,
) -> (Option<ScrollAxis>, Option<Size2D>, int)
    decreases t.len() - i,
{
    if ax is None && ScrollAxis::sp_parse(t, i) is Some {
        let (v, j) = ScrollAxis::sp_parse(t, i)->Some_0;
        if i < j <= t.len() {
            sp_view_fill(t, j, Some(v), inset)
        } else {
            (ax, inset, i)
        }
    } else if inset is None && Size2D::sp_parse(t, i) is Some {
        let (v, j) = Size2D::sp_parse(t, i)->Some_0;
        if i < j <= t.len() {
            sp_view_fill(t, j, ax, Some(v))
        } else {
            (ax, inset, i)
        }
    } else {
        (ax, inset, i)
    }
}

impl ViewTimeline {
    /// Parses the arguments of a view() function: an axis and an inset,
    /// each optional, in either order; unfilled slots take their defaults.
    /// Returns the value and the position of the first unconsumed token.
    pub open spec fn sp_parse(t: Seq<TokV>, i: int) -> (ViewTimeline, int) {
        let (ax, inset, j) = sp_view_fill(t, i, None, None);
        (
            ViewTimeline {
                axis: match ax {
                    Some(v) => v,
                    None => ScrollAxis::Block,
                },
                inset: match inset {
                    Some(v) => v,
                    None => Size2D(LengthPercentageOrAuto::Auto, LengthPercentageOrAuto::Auto),
                },
            },
            j,
        )
    }

    /// Parses view() arguments from the token stream, as executable code.
    pub fn parse(toks: &Vec<Token>, i: usize) -> (r: (Self, usize))
        requires
            i <= toks@.len(),
        ensures
            Self::sp_parse(toks_view(toks@), i as int) == (r.0, r.1 as int),
            i <= r.1 <= toks@.len(),
    {
        let ghost tv = toks_view(toks@);
        let mut axis: Option<ScrollAxis> = None;
        let mut inset: Option<Size2D> = None;
        let mut pos: usize = i;
        loop
            invariant
                i <= pos <= toks@.len(),
                tv == toks_view(toks@),
                sp_view_fill(tv, i as int, None, None) == sp_view_fill(
                    tv,
                    pos as int,
                    axis,
                    inset,
                ),
            ensures
                i <= pos <= toks@.len(),
                sp_view_fill(tv, i as int, None, None) == (axis, inset, pos as int),
            decreases toks@.len() - pos,
        {
            if axis.is_none() {
                match ScrollAxis::parse(toks, pos) {
                    Some((v, j)) => {
                        axis = Some(v);
                        pos = j;
                        continue ;
                    },
                    None => {},
                }
            }
            if inset.is_none() {
                match Size2D::parse(toks, pos) {
                    Some((v, j)) => {
                        inset = Some(v);
                        pos = j;
                        continue ;
                    },
                    None => {},
                }
            }
            break ;
        }
        let vt = ViewTimeline {
            axis: match axis {
                Some(v) => v,
                None => ScrollAxis::Block,
            },
            inset: match inset {
                Some(v) => v,
                None => Size2D::both_auto(),
            },
        };
        (vt, pos)
    }

    /// The argument tokens this timeline prints as: each component is
    /// omitted when it equals its default.
    pub open spec fn spec_arg_toks(self) -> Seq<TokV> {
        let ax: Seq<TokV> = if self.axis != ScrollAxis::Block {
            seq![TokV::Ident(self.axis.kw_text())]
        } else {
            Seq::<TokV>::empty()
        };
        let ins: Seq<TokV> = if self.inset != Size2D(
            LengthPercentageOrAuto::Auto,
            LengthPercentageOrAuto::Auto,
        ) {
            self.inset.spec_toks()
        } else {
            Seq::<TokV>::empty()
        };
        ax + ins
    }
}

/// A value for the animation-timeline property.
#[derive(Debug, Clone, PartialEq)]
pub enum AnimationTimeline {
    /// The default document timeline.
    Auto,
    /// The animation is not associated with a timeline.
    NoneKw,
    /// A timeline referenced by a dashed identifier.
    DashedIdent(String),
    /// The scroll() function.
    Scroll(ScrollTimeline),
    /// The view() function.
    View(ViewTimeline),
}

/// The mathematical view of an animation timeline.
#[verifier::ext_equal]
pub enum TimelineV {
    /// The default document timeline.
    Auto,
    /// No associated timeline.
    NoneKw,
    /// A timeline referenced by a dashed identifier.
    DashedIdent(Seq<char>),
    /// The scroll() function.
    Scroll(ScrollTimeline),
    /// The view() function.
    View(ViewTimeline),
}

impl View for AnimationTimeline {
    type V = TimelineV;

    open spec fn view(&self) -> TimelineV {
        match self {
            AnimationTimeline::Auto => TimelineV::Auto,
            AnimationTimeline::NoneKw => TimelineV::NoneKw,
            AnimationTimeline::DashedIdent(s) => TimelineV::DashedIdent(s@),
            AnimationTimeline::Scroll(st) => TimelineV::Scroll(*st),
            AnimationTimeline::View(vt) => TimelineV::View(*vt),
        }
    }
}

/// Whether an identifier is a dashed identifier, beginning with two dashes.
pub open spec fn is_dashed_ident(s: Seq<char>) -> bool {
    s.len() >= 2 && s[0] == '-' && s[1] == '-'
}

/// Dashed-identifier test, as executable code.
pub fn dashed_ident(s: &str) -> (r: bool)
    ensures
        r == is_dashed_ident(s@),
{
    if s.unicode_len() < 2 {
        return false;
    }
    s.get_char(0) == '-' && s.get_char(1) == '-'
}

/// The view of a timeline parser step.
pub open spec fn timeline_step_view(r: Option<(AnimationTimeline, usize)>) -> Option<
    (TimelineV, int),
> {
    match r {
        Some((v, j)) => Some((v@, j as int)),
        None => None,
    }
}

impl AnimationTimeline {
    /// Parses a timeline: `auto`, `none`, a dashed identifier, or a
    /// scroll() or view() function whose block must end at its closing
    /// parenthesis; unrecognized content inside a function is an error.
    pub open spec fn sp_parse(t: Seq<TokV>, i: int) -> Option<(TimelineV, int)> {
        if 0 <= i < t.len() {
            match t[i] {
                TokV::Ident(s) => if ci_eq(s, "auto"@) {
                    Some((TimelineV::Auto, i + 1))
                } else if ci_eq(s, "none"@) {
                    Some((TimelineV::NoneKw, i + 1))
                } else if is_dashed_ident(s) {
                    Some((TimelineV::DashedIdent(s), i + 1))
                } else {
                    None
                },
                TokV::Function(f) => if ci_eq(f, "scroll"@) {
                    let (st, j) = ScrollTimeline::sp_parse(t, i + 1);
                    if j < t.len() && t[j] is CloseParen {
                        Some((TimelineV::Scroll(st), j + 1))
                    } else {
                        None
                    }
                } else if ci_eq(f, "view"@) {
                    let (vt, j) = ViewTimeline::sp_parse(t, i + 1);
                    if j < t.len() && t[j] is CloseParen {
                        Some((TimelineV::View(vt), j + 1))
                    } else {
                        None
                    }
                } else {
                    None
                },
                _ => None,
            }
        } else {
            None
        }
    }

    /// Parses a timeline from the token stream, as executable code.
    pub fn parse(toks: &Vec<Token>, i: usize) -> (r: Option<(Self, usize)>)
        requires
            i <= toks@.len(),
        ensures
            timeline_step_view(r) == Self::sp_parse(toks_view(toks@), i as int),
            r is Some ==> i < r->Some_0.1 <= toks@.len(),
    {
        if i < toks.len() {
            match &toks[i] {
                Token::Ident(s) => if eq_ignore_case(s.as_str(), "auto") {
                    Some((AnimationTimeline::Auto, i + 1))
                } else if eq_ignore_case(s.as_str(), "none") {
                    Some((AnimationTimeline::NoneKw, i + 1))
                } else if dashed_ident(s.as_str()) {
                    Some((AnimationTimeline::DashedIdent(s.clone()), i + 1))
                } else {
                    None
                },
                Token::Function(f) => if eq_ignore_case(f.as_str(), "scroll") {
                    let (st, j) = ScrollTimeline::parse(toks, i + 1);
                    if j < toks.len() && matches!(&toks[j], Token::CloseParen) {
                        Some((AnimationTimeline::Scroll(st), j + 1))
                    } else {
                        None
                    }
                } else if eq_ignore_case(f.as_str(), "view") {
                    let (vt, j) = ViewTimeline::parse(toks, i + 1);
                    if j < toks.len() && matches!(&toks[j], Token::CloseParen) {
                        Some((AnimationTimeline::View(vt), j + 1))
                    } else {
                        None
                    }
                } else {
                    None
                },
                _ => None,
            }
        } else {
            None
        }
    }

    /// A copy of the timeline.
    pub fn clone_val(&self) -> (r: Self)
        ensures
            r == *self,
    {
        match self {
            AnimationTimeline::Auto => AnimationTimeline::Auto,
            AnimationTimeline::NoneKw => AnimationTimeline::NoneKw,
            AnimationTimeline::DashedIdent(s) => AnimationTimeline::DashedIdent(s.clone()),
            AnimationTimeline::Scroll(st) => AnimationTimeline::Scroll(*st),
            AnimationTimeline::View(vt) => AnimationTimeline::View(*vt),
        }
    }

    /// Whether this is the default timeline.
    pub fn is_auto(&self) -> (r: bool)
        ensures
            r == (self@ == TimelineV::Auto),
    {
        matches!(self, AnimationTimeline::Auto)
    }
}

/// The tokens a timeline prints as.
pub open spec fn timeline_toks(tl: TimelineV) -> Seq<TokV> {
    match tl {
        TimelineV::Auto => seq![TokV::Ident("auto"@)],
        TimelineV::NoneKw => seq![TokV::Ident("none"@)],
        TimelineV::DashedIdent(s) => seq![TokV::Ident(s)],
        TimelineV::Scroll(st) => seq![TokV::Function("scroll"@)] + st.spec_arg_toks() + seq![
            TokV::CloseParen,
        ],
        TimelineV::View(vt) => seq![TokV::Function("view"@)] + vt.spec_arg_toks() + seq![
            TokV::CloseParen,
        ],
    }
}

impl AnimationTimeline {
    /// Pushes the tokens this timeline prints as onto `out`.
    pub fn push_tokens(&self, out: &mut Vec<Token>)
        ensures
            toks_view(final(out)@) == toks_view(old(out)@) + timeline_toks(self@),
    {
        match self {
            AnimationTimeline::Auto => {
                out.push(Token::Ident(String::from_str("auto")));
                assert(toks_view(out@) =~= toks_view(old(out)@).push(TokV::Ident("auto"@)));
            },
            AnimationTimeline::NoneKw => {
                out.push(Token::Ident(String::from_str("none")));
                assert(toks_view(out@) =~= toks_view(old(out)@).push(TokV::Ident("none"@)));
            },
            AnimationTimeline::DashedIdent(s) => {
                out.push(Token::Ident(s.clone()));
                assert(toks_view(out@) =~= toks_view(old(out)@).push(TokV::Ident(s@)));
            },
            AnimationTimeline::Scroll(st) => {
                out.push(Token::Function(String::from_str("scroll")));
                assert(toks_view(out@) =~= toks_view(old(out)@).push(
                    TokV::Function("scroll"@),
                ));
                if !matches!(st.scroller, Scroller::Nearest) {
                    let ghost before = out@;
                    match st.scroller {
                        Scroller::Root => out.push(Token::Ident(String::from_str("root"))),
                        Scroller::Nearest => out.push(Token::Ident(String::from_str("nearest"))),
                        Scroller::SelfElement => out.push(Token::Ident(String::from_str("self"))),
                    }
                    assert(toks_view(out@) =~= toks_view(before).push(
                        TokV::Ident(st.scroller.kw_text()),
                    ));
                }
                if !matches!(st.axis, ScrollAxis::Block) {
                    push_axis_token(st.axis, out);
                }
                let ghost before2 = out@;
                out.push(Token::CloseParen);
                assert(toks_view(out@) =~= toks_view(before2).push(TokV::CloseParen));
            },
            AnimationTimeline::View(vt) => {
                out.push(Token::Function(String::from_str("view")));
                assert(toks_view(out@) =~= toks_view(old(out)@).push(TokV::Function("view"@)));
                if !matches!(vt.axis, ScrollAxis::Block) {
                    push_axis_token(vt.axis, out);
                }
                let auto2 = Size2D::both_auto();
                if !(vt.inset == auto2) {
                    let t0 = vt.inset.0.to_token();
                    let ghost before = out@;
                    out.push(t0);
                    assert(toks_view(out@) =~= toks_view(before).push(vt.inset.0.spec_tok()));
                    if !(vt.inset.1 == vt.inset.0) {
                        let t1 = vt.inset.1.to_token();
                        let ghost before1 = out@;
                        out.push(t1);
                        assert(toks_view(out@) =~= toks_view(before1).push(
                            vt.inset.1.spec_tok(),
                        ));
                    }
                }
                let ghost before2 = out@;
                out.push(Token::CloseParen);
                assert(toks_view(out@) =~= toks_view(before2).push(TokV::CloseParen));
            },
        }
        assert(toks_view(out@) =~= toks_view(old(out)@) + timeline_toks(self@));
    }

    /// Appends the canonical text of the timeline to `dest`.
    pub fn to_css(&self, dest: &mut String)
        ensures
            final(dest)@ == old(dest)@ + render(timeline_toks(self@)),
    {
        let mut toks: Vec<Token> = Vec::new();
        self.push_tokens(&mut toks);
        proof {
            assert(toks_view(toks@) =~= timeline_toks(self@));
        }
        render_tokens(&toks, dest);
    }
}

/// Pushes the keyword token of an axis onto `out`.
fn push_axis_token(ax: ScrollAxis, out: &mut Vec<Token>)
    ensures
        toks_view(final(out)@) == toks_view(old(out)@) + seq![TokV::Ident(ax.kw_text())],
{
    match ax {
        ScrollAxis::Block => out.push(Token::Ident(String::from_str("block"))),
        ScrollAxis::Inline => out.push(Token::Ident(String::from_str("inline"))),
        ScrollAxis::X => out.push(Token::Ident(String::from_str("x"))),
        ScrollAxis::Y => out.push(Token::Ident(String::from_str("y"))),
    }
    assert(toks_view(out@) =~= toks_view(old(out)@) + seq![TokV::Ident(ax.kw_text())]);
}

impl Default for AnimationTimeline {
    /// The default timeline is `auto`.
    fn default() -> (r: Self)
        ensures
            r@ == TimelineV::Auto,
    {
        AnimationTimeline::Auto
    }
}

} // verus!

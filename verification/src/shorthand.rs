//! The shorthand codec: one animation reference combining nine sub-values,
//! with a greedy order-independent parser and a printer that re-prints
//! default fields whenever omitting them would let the animation name be
//! mis-parsed as an earlier field on round-trip.

use vstd::prelude::*;
use vstd::seq_lib::lemma_concat_associative;
use crate::text::ci_eq;
use crate::tokens::{Token, TokV, toks_view, render, render_tokens};
use crate::values::{
    Time, EasingFunction, AnimationName, NameV, name_tok, AnimationIterationCount,
    AnimationDirection, AnimationPlayState, AnimationFillMode,
};
use crate::timeline::{AnimationTimeline, TimelineV, timeline_toks};

verus! {

/// One animation reference of the shorthand: nine sub-values, each with a
/// documented default.
#[derive(Debug, Clone, PartialEq)]
pub struct Animation {
    /// The animation name.
    pub name: AnimationName,
    /// The animation duration.
    pub duration: Time,
    /// The easing function for the animation.
    pub timing_function: EasingFunction,
    /// The number of times the animation runs.
    pub iteration_count: AnimationIterationCount,
    /// The direction of the animation.
    pub direction: AnimationDirection,
    /// The current play state of the animation.
    pub play_state: AnimationPlayState,
    /// The animation delay.
    pub delay: Time,
    /// The animation fill mode.
    pub fill_mode: AnimationFillMode,
    /// The animation timeline.
    pub timeline: AnimationTimeline,
}

/// The mathematical view of one animation reference.
#[verifier::ext_equal]
pub struct EntryV {
    /// The animation name.
    pub name: NameV,
    /// The animation duration.
    pub duration: Time,
    /// The easing function.
    pub timing_function: EasingFunction,
    /// The iteration count.
    pub iteration_count: AnimationIterationCount,
    /// The direction.
    pub direction: AnimationDirection,
    /// The play state.
    pub play_state: AnimationPlayState,
    /// The delay.
    pub delay: Time,
    /// The fill mode.
    pub fill_mode: AnimationFillMode,
    /// The timeline.
    pub timeline: TimelineV,
}

impl View for Animation {
    type V = EntryV;

    open spec fn view(&self) -> EntryV {
        EntryV {
            name: self.name@,
            duration: self.duration,
            timing_function: self.timing_function,
            iteration_count: self.iteration_count,
            direction: self.direction,
            play_state: self.play_state,
            delay: self.delay,
            fill_mode: self.fill_mode,
            timeline: self.timeline@,
        }
    }
}

/// The entry whose every field is its documented default.
pub open spec fn default_entry() -> EntryV {
    EntryV {
        name: NameV::NoneKw,
        duration: Time { ms: 0 },
        timing_function: EasingFunction::Ease,
        iteration_count: AnimationIterationCount::Number(1),
        direction: AnimationDirection::Normal,
        play_state: AnimationPlayState::Running,
        delay: Time { ms: 0 },
        fill_mode: AnimationFillMode::NoneKw,
        timeline: TimelineV::Auto,
    }
}

/// The slot state of the greedy shorthand parser: one optional slot per
/// sub-value.
#[verifier::ext_equal]
pub struct SlotsV {
    /// The duration slot.
    pub duration: Option<Time>,
    /// The timing-function slot.
    pub timing_function: Option<EasingFunction>,
    /// The delay slot.
    pub delay: Option<Time>,
    /// The iteration-count slot.
    pub iteration_count: Option<AnimationIterationCount>,
    /// The direction slot.
    pub direction: Option<AnimationDirection>,
    /// The fill-mode slot.
    pub fill_mode: Option<AnimationFillMode>,
    /// The play-state slot.
    pub play_state: Option<AnimationPlayState>,
    /// The name slot.
    pub name: Option<NameV>,
    /// The timeline slot.
    pub timeline: Option<TimelineV>,
}

/// The all-empty slot state.
pub open spec fn empty_slots() -> SlotsV {
    SlotsV {
        duration: None,
        timing_function: None,
        delay: None,
        iteration_count: None,
        direction: None,
        fill_mode: None,
        play_state: None,
        name: None,
        timeline: None,
    }
}

/// One pass of the greedy parser: the first still-empty slot, in the fixed
/// priority order duration, timing-function, delay, iteration-count,
/// direction, fill-mode, play-state, name, timeline, whose sub-grammar
/// matches at `i`.  Name and timeline come last so that any token matching
/// an earlier type is preferentially consumed by that type.
pub open spec fn sp_fill_one(t: Seq<TokV>, i: int, s: SlotsV) -> Option<(SlotsV, int)> {
    if s.duration is None && Time::sp_parse(t, i) is Some {
        let (v, j) = Time::sp_parse(t, i)->Some_0;
        Some((SlotsV { duration: Some(v), ..s }, j))
    } else if s.timing_function is None && EasingFunction::sp_parse(t, i) is Some {
        let (v, j) = EasingFunction::sp_parse(t, i)->Some_0;
        Some((SlotsV { timing_function: Some(v), ..s }, j))
    } else if s.delay is None && Time::sp_parse(t, i) is Some {
        let (v, j) = Time::sp_parse(t, i)->Some_0;
        Some((SlotsV { delay: Some(v), ..s }, j))
    } else if s.iteration_count is None && AnimationIterationCount::sp_parse(t, i) is Some {
        let (v, j) = AnimationIterationCount::sp_parse(t, i)->Some_0;
        Some((SlotsV { iteration_count: Some(v), ..s }, j))
    } else if s.direction is None && AnimationDirection::sp_parse(t, i) is Some {
        let (v, j) = AnimationDirection::sp_parse(t, i)->Some_0;
        Some((SlotsV { direction: Some(v), ..s }, j))
    } else if s.fill_mode is None && AnimationFillMode::sp_parse(t, i) is Some {
        let (v, j) = AnimationFillMode::sp_parse(t, i)->Some_0;
        Some((SlotsV { fill_mode: Some(v), ..s }, j))
    } else if s.play_state is None && AnimationPlayState::sp_parse(t, i) is Some {
        let (v, j) = AnimationPlayState::sp_parse(t, i)->Some_0;
        Some((SlotsV { play_state: Some(v), ..s }, j))
    } else if s.name is None && AnimationName::sp_parse(t, i) is Some {
        let (v, j) = AnimationName::sp_parse(t, i)->Some_0;
        Some((SlotsV { name: Some(v), ..s }, j))
    } else if s.timeline is None && AnimationTimeline::sp_parse(t, i) is Some {
        let (v, j) = AnimationTimeline::sp_parse(t, i)->Some_0;
        Some((SlotsV { timeline: Some(v), ..s }, j))
    } else {
        None
    }
}

/// The greedy fill loop: repeat single passes until no slot advances.
pub open spec fn sp_fill_all(t: Seq<TokV>, i: int, s: SlotsV) -> (SlotsV, int)
    decreases t.len() - i,
{
    match sp_fill_one(t, i, s) {
        Some((s2, j)) => if i < j <= t.len() {
            sp_fill_all(t, j, s2)
        } else {
            (s, i)
        },
        None => (s, i),
    }
}

/// One successful pass advances the greedy loop.
pub proof fn lemma_fill_step(t: Seq<TokV>, i: int, s: SlotsV, s2: SlotsV, j: int)
    requires
        i < j <= t.len(),
        sp_fill_one(t, i, s) == Some((s2, j)),
    ensures
        sp_fill_all(t, i, s) == sp_fill_all(t, j, s2),
{
}

/// A pass with no progress ends the greedy loop.
pub proof fn lemma_fill_stop(t: Seq<TokV>, i: int, s: SlotsV)
    requires
        sp_fill_one(t, i, s) is None,
    ensures
        sp_fill_all(t, i, s) == (s, i),
{
}

/// The entry a slot state denotes: every unfilled slot takes its default.
pub open spec fn entry_of_slots(s: SlotsV) -> EntryV {
    EntryV {
        name: match s.name {
            Some(v) => v,
            None => NameV::NoneKw,
        },
        duration: match s.duration {
            Some(v) => v,
            None => Time { ms: 0 },
        },
        timing_function: match s.timing_function {
            Some(v) => v,
            None => EasingFunction::Ease,
        },
        iteration_count: match s.iteration_count {
            Some(v) => v,
            None => AnimationIterationCount::Number(1),
        },
        direction: match s.direction {
            Some(v) => v,
            None => AnimationDirection::Normal,
        },
        play_state: match s.play_state {
            Some(v) => v,
            None => AnimationPlayState::Running,
        },
        delay: match s.delay {
            Some(v) => v,
            None => Time { ms: 0 },
        },
        fill_mode: match s.fill_mode {
            Some(v) => v,
            None => AnimationFillMode::NoneKw,
        },
        timeline: match s.timeline {
            Some(v) => v,
            None => TimelineV::Auto,
        },
    }
}

/// Parses one shorthand entry: the greedy fill from `i`, then defaults.
/// Total: an entry that matches nothing consumes nothing and denotes the
/// all-default entry.
pub open spec fn sp_parse_entry(t: Seq<TokV>, i: int) -> (EntryV, int) {
    let (s, j) = sp_fill_all(t, i, empty_slots());
    (entry_of_slots(s), j)
}

/// The view of an optional parsed name slot.
pub open spec fn opt_name_view(o: Option<AnimationName>) -> Option<NameV> {
    match o {
        Some(n) => Some(n@),
        None => None,
    }
}

/// The view of an optional parsed timeline slot.
pub open spec fn opt_timeline_view(o: Option<AnimationTimeline>) -> Option<TimelineV> {
    match o {
        Some(t) => Some(t@),
        None => None,
    }
}

/// The slot state denoted by the executable parser's locals.
pub open spec fn mk_slots(
    duration: Option<Time>,
    timing_function: Option<EasingFunction>,
    delay: Option<Time>,
    iteration_count: Option<AnimationIterationCount>,
    direction: Option<AnimationDirection>,
    fill_mode: Option<AnimationFillMode>,
    play_state: Option<AnimationPlayState>,
    name: Option<NameV>,
    timeline: Option<TimelineV>,
) -> SlotsV {
    SlotsV {
        duration,
        timing_function,
        delay,
        iteration_count,
        direction,
        fill_mode,
        play_state,
        name,
        timeline,
    }
}

impl Animation {
    /// Parses one shorthand entry from the token stream, as executable
    /// code.  Returns the entry and the position of the first token the
    /// greedy fill could not consume.
    #[verifier::rlimit(100)]
    pub fn parse(toks: &Vec<Token>, i: usize) -> (r: (Animation, usize))
        requires
            i <= toks@.len(),
        ensures
            sp_parse_entry(toks_view(toks@), i as int) == (r.0@, r.1 as int),
            i <= r.1 <= toks@.len(),
    {
        let ghost tv = toks_view(toks@);
        let mut duration: Option<Time> = None;
        let mut timing_function: Option<EasingFunction> = None;
        let mut delay: Option<Time> = None;
        let mut iteration_count: Option<AnimationIterationCount> = None;
        let mut direction: Option<AnimationDirection> = None;
        let mut fill_mode: Option<AnimationFillMode> = None;
        let mut play_state: Option<AnimationPlayState> = None;
        let mut name: Option<AnimationName> = None;
        let mut timeline: Option<AnimationTimeline> = None;
        let mut pos: usize = i;
        loop
            invariant
                i <= pos <= toks@.len(),
                tv == toks_view(toks@),
                sp_fill_all(tv, i as int, empty_slots()) == sp_fill_all(
                    tv,
                    pos as int,
                    mk_slots(
                        duration,
                        timing_function,
                        delay,
                        iteration_count,
                        direction,
                        fill_mode,
                        play_state,
                        opt_name_view(name),
                        opt_timeline_view(timeline),
                    ),
                ),
            ensures
                i <= pos <= toks@.len(),
                sp_fill_all(tv, i as int, empty_slots()) == (
                    mk_slots(
                        duration,
                        timing_function,
                        delay,
                        iteration_count,
                        direction,
                        fill_mode,
                        play_state,
                        opt_name_view(name),
                        opt_timeline_view(timeline),
                    ),
                    pos as int,
                ),
            decreases toks@.len() - pos,
        {
            if duration.is_none() {
                match Time::parse(toks, pos) {
                    Some((v, j)) => {
                        proof {
                            let s_old = mk_slots(
                                duration,
                                timing_function,
                                delay,
                                iteration_count,
                                direction,
                                fill_mode,
                                play_state,
                                opt_name_view(name),
                                opt_timeline_view(timeline),
                            );
                            lemma_fill_step(
                                tv,
                                pos as int,
                                s_old,
                                SlotsV { duration: Some(v), ..s_old },
                                j as int,
                            );
                        }
                        duration = Some(v);
                        pos = j;
                        continue ;
                    },
                    None => {},
                }
            }
            if timing_function.is_none() {
                match EasingFunction::parse(toks, pos) {
                    Some((v, j)) => {
                        proof {
                            let s_old = mk_slots(
                                duration,
                                timing_function,
                                delay,
                                iteration_count,
                                direction,
                                fill_mode,
                                play_state,
                                opt_name_view(name),
                                opt_timeline_view(timeline),
                            );
                            lemma_fill_step(
                                tv,
                                pos as int,
                                s_old,
                                SlotsV { timing_function: Some(v), ..s_old },
                                j as int,
                            );
                        }
                        timing_function = Some(v);
                        pos = j;
                        continue ;
                    },
                    None => {},
                }
            }
            if delay.is_none() {
                match Time::parse(toks, pos) {
                    Some((v, j)) => {
                        proof {
                            let s_old = mk_slots(
                                duration,
                                timing_function,
                                delay,
                                iteration_count,
                                direction,
                                fill_mode,
                                play_state,
                                opt_name_view(name),
                                opt_timeline_view(timeline),
                            );
                            lemma_fill_step(
                                tv,
                                pos as int,
                                s_old,
                                SlotsV { delay: Some(v), ..s_old },
                                j as int,
                            );
                        }
                        delay = Some(v);
                        pos = j;
                        continue ;
                    },
                    None => {},
                }
            }
            if iteration_count.is_none() {
                match AnimationIterationCount::parse(toks, pos) {
                    Some((v, j)) => {
                        proof {
                            let s_old = mk_slots(
                                duration,
                                timing_function,
                                delay,
                                iteration_count,
                                direction,
                                fill_mode,
                                play_state,
                                opt_name_view(name),
                                opt_timeline_view(timeline),
                            );
                            lemma_fill_step(
                                tv,
                                pos as int,
                                s_old,
                                SlotsV { iteration_count: Some(v), ..s_old },
                                j as int,
                            );
                        }
                        iteration_count = Some(v);
                        pos = j;
                        continue ;
                    },
                    None => {},
                }
            }
            if direction.is_none() {
                match AnimationDirection::parse(toks, pos) {
                    Some((v, j)) => {
                        proof {
                            let s_old = mk_slots(
                                duration,
                                timing_function,
                                delay,
                                iteration_count,
                                direction,
                                fill_mode,
                                play_state,
                                opt_name_view(name),
                                opt_timeline_view(timeline),
                            );
                            lemma_fill_step(
                                tv,
                                pos as int,
                                s_old,
                                SlotsV { direction: Some(v), ..s_old },
                                j as int,
                            );
                        }
                        direction = Some(v);
                        pos = j;
                        continue ;
                    },
                    None => {},
                }
            }
            if fill_mode.is_none() {
                match AnimationFillMode::parse(toks, pos) {
                    Some((v, j)) => {
                        proof {
                            let s_old = mk_slots(
                                duration,
                                timing_function,
                                delay,
                                iteration_count,
                                direction,
                                fill_mode,
                                play_state,
                                opt_name_view(name),
                                opt_timeline_view(timeline),
                            );
                            lemma_fill_step(
                                tv,
                                pos as int,
                                s_old,
                                SlotsV { fill_mode: Some(v), ..s_old },
                                j as int,
                            );
                        }
                        fill_mode = Some(v);
                        pos = j;
                        continue ;
                    },
                    None => {},
                }
            }
            if play_state.is_none() {
                match AnimationPlayState::parse(toks, pos) {
                    Some((v, j)) => {
                        proof {
                            let s_old = mk_slots(
                                duration,
                                timing_function,
                                delay,
                                iteration_count,
                                direction,
                                fill_mode,
                                play_state,
                                opt_name_view(name),
                                opt_timeline_view(timeline),
                            );
                            lemma_fill_step(
                                tv,
                                pos as int,
                                s_old,
                                SlotsV { play_state: Some(v), ..s_old },
                                j as int,
                            );
                        }
                        play_state = Some(v);
                        pos = j;
                        continue ;
                    },
                    None => {},
                }
            }
            if name.is_none() {
                match AnimationName::parse(toks, pos) {
                    Some((v, j)) => {
                        proof {
                            let s_old = mk_slots(
                                duration,
                                timing_function,
                                delay,
                                iteration_count,
                                direction,
                                fill_mode,
                                play_state,
                                opt_name_view(name),
                                opt_timeline_view(timeline),
                            );
                            lemma_fill_step(
                                tv,
                                pos as int,
                                s_old,
                                SlotsV { name: Some(v@), ..s_old },
                                j as int,
                            );
                        }
                        name = Some(v);
                        pos = j;
                        continue ;
                    },
                    None => {},
                }
            }
            if timeline.is_none() {
                match AnimationTimeline::parse(toks, pos) {
                    Some((v, j)) => {
                        proof {
                            let s_old = mk_slots(
                                duration,
                                timing_function,
                                delay,
                                iteration_count,
                                direction,
                                fill_mode,
                                play_state,
                                opt_name_view(name),
                                opt_timeline_view(timeline),
                            );
                            lemma_fill_step(
                                tv,
                                pos as int,
                                s_old,
                                SlotsV { timeline: Some(v@), ..s_old },
                                j as int,
                            );
                        }
                        timeline = Some(v);
                        pos = j;
                        continue ;
                    },
                    None => {},
                }
            }
            proof {
                let s_old = mk_slots(
                                duration,
                                timing_function,
                                delay,
                                iteration_count,
                                direction,
                                fill_mode,
                                play_state,
                                opt_name_view(name),
                                opt_timeline_view(timeline),
                            );
                lemma_fill_stop(tv, pos as int, s_old);
            }
            break ;
        }
        let entry = Animation {
            name: match name {
                Some(v) => v,
                None => AnimationName::NoneKw,
            },
            duration: match duration {
                Some(v) => v,
                None => Time { ms: 0 },
            },
            timing_function: match timing_function {
                Some(v) => v,
                None => EasingFunction::Ease,
            },
            iteration_count: match iteration_count {
                Some(v) => v,
                None => AnimationIterationCount::Number(1),
            },
            direction: match direction {
                Some(v) => v,
                None => AnimationDirection::Normal,
            },
            play_state: match play_state {
                Some(v) => v,
                None => AnimationPlayState::Running,
            },
            delay: match delay {
                Some(v) => v,
                None => Time { ms: 0 },
            },
            fill_mode: match fill_mode {
                Some(v) => v,
                None => AnimationFillMode::NoneKw,
            },
            timeline: match timeline {
                Some(v) => v,
                None => AnimationTimeline::Auto,
            },
        };
        (entry, pos)
    }

    /// A copy of the entry.
    pub fn clone_val(&self) -> (r: Self)
        ensures
            r == *self,
    {
        Animation {
            name: self.name.clone_val(),
            duration: self.duration,
            timing_function: self.timing_function,
            iteration_count: self.iteration_count,
            direction: self.direction,
            play_state: self.play_state,
            delay: self.delay,
            fill_mode: self.fill_mode,
            timeline: self.timeline.clone_val(),
        }
    }
}

/// The raw text of the entry's name; meaningful for identifier and string
/// names, which is where the printer consults it.
pub open spec fn name_text(e: EntryV) -> Seq<char> {
    match e.name {
        NameV::NoneKw => "none"@,
        NameV::Ident(s) => s,
        NameV::Str(s) => s,
    }
}

/// Duration is printed when it or the delay is non-zero: the duration must
/// occupy the first time slot so a printed delay is unambiguous.
pub open spec fn prints_duration(e: EntryV) -> bool {
    e.duration.ms != 0 || e.delay.ms != 0
}

/// Timing function is printed when non-default, or when the name text
/// would itself parse as an easing keyword.
pub open spec fn prints_timing(e: EntryV) -> bool {
    e.timing_function != EasingFunction::Ease || EasingFunction::sp_from_ident(
        name_text(e),
    ) is Some
}

/// Delay is printed when non-zero.
pub open spec fn prints_delay(e: EntryV) -> bool {
    e.delay.ms != 0
}

/// Iteration count is printed when non-default, or when the name text is
/// exactly `infinite`.
pub open spec fn prints_iteration(e: EntryV) -> bool {
    e.iteration_count != AnimationIterationCount::Number(1) || name_text(e) == "infinite"@
}

/// Direction is printed when non-default, or when the name text would
/// parse as a direction keyword.
pub open spec fn prints_direction(e: EntryV) -> bool {
    e.direction != AnimationDirection::Normal || AnimationDirection::sp_from_ident(
        name_text(e),
    ) is Some
}

/// Fill mode is printed when non-default, or when the name text is not
/// case-insensitively `none` and would parse as a fill-mode keyword.
pub open spec fn prints_fill(e: EntryV) -> bool {
    e.fill_mode != AnimationFillMode::NoneKw || (!ci_eq(name_text(e), "none"@)
        && AnimationFillMode::sp_from_ident(name_text(e)) is Some)
}

/// Play state is printed when non-default, or when the name text would
/// parse as a play-state keyword.
pub open spec fn prints_play(e: EntryV) -> bool {
    e.play_state != AnimationPlayState::Running || AnimationPlayState::sp_from_ident(
        name_text(e),
    ) is Some
}

/// The duration segment of the printed entry.
pub open spec fn seg_duration(e: EntryV) -> Seq<TokV> {
    if prints_duration(e) {
        seq![TokV::Time(e.duration)]
    } else {
        Seq::<TokV>::empty()
    }
}

/// The timing-function segment of the printed entry.
pub open spec fn seg_timing(e: EntryV) -> Seq<TokV> {
    if prints_timing(e) {
        seq![TokV::Ident(e.timing_function.kw_text())]
    } else {
        Seq::<TokV>::empty()
    }
}

/// The delay segment of the printed entry.
pub open spec fn seg_delay(e: EntryV) -> Seq<TokV> {
    if prints_delay(e) {
        seq![TokV::Time(e.delay)]
    } else {
        Seq::<TokV>::empty()
    }
}

/// The iteration-count segment of the printed entry.
pub open spec fn seg_iteration(e: EntryV) -> Seq<TokV> {
    if prints_iteration(e) {
        seq![e.iteration_count.spec_tok()]
    } else {
        Seq::<TokV>::empty()
    }
}

/// The direction segment of the printed entry.
pub open spec fn seg_direction(e: EntryV) -> Seq<TokV> {
    if prints_direction(e) {
        seq![TokV::Ident(e.direction.kw_text())]
    } else {
        Seq::<TokV>::empty()
    }
}

/// The fill-mode segment of the printed entry.
pub open spec fn seg_fill(e: EntryV) -> Seq<TokV> {
    if prints_fill(e) {
        seq![TokV::Ident(e.fill_mode.kw_text())]
    } else {
        Seq::<TokV>::empty()
    }
}

/// The play-state segment of the printed entry.
pub open spec fn seg_play(e: EntryV) -> Seq<TokV> {
    if prints_play(e) {
        seq![TokV::Ident(e.play_state.kw_text())]
    } else {
        Seq::<TokV>::empty()
    }
}

/// The timeline segment of the printed entry.
pub open spec fn seg_timeline(e: EntryV) -> Seq<TokV> {
    if e.timeline != TimelineV::Auto {
        timeline_toks(e.timeline)
    } else {
        Seq::<TokV>::empty()
    }
}

/// The tokens one entry prints as.  A `none` entry prints as the bare
/// keyword and carries no other observable state; otherwise each field is
/// printed per its rule, the name comes after every disambiguating field,
/// and a non-default timeline follows the name.
pub open spec fn entry_tokens(e: EntryV) -> Seq<TokV> {
    if e.name is NoneKw {
        seq![TokV::Ident("none"@)]
    } else {
        seg_duration(e) + seg_timing(e) + seg_delay(e) + seg_iteration(e) + seg_direction(e)
            + seg_fill(e) + seg_play(e) + seq![name_tok(e.name)] + seg_timeline(e)
    }
}

/// Pushes the keyword token of an easing function onto `out`.
fn push_easing_token(v: EasingFunction, out: &mut Vec<Token>)
    ensures
        toks_view(final(out)@) == toks_view(old(out)@).push(TokV::Ident(v.kw_text())),
{
    match v {
        EasingFunction::Ease => out.push(Token::Ident(String::from_str("ease"))),
        EasingFunction::Linear => out.push(Token::Ident(String::from_str("linear"))),
        EasingFunction::EaseIn => out.push(Token::Ident(String::from_str("ease-in"))),
        EasingFunction::EaseOut => out.push(Token::Ident(String::from_str("ease-out"))),
        EasingFunction::EaseInOut => out.push(Token::Ident(String::from_str("ease-in-out"))),
        EasingFunction::StepStart => out.push(Token::Ident(String::from_str("step-start"))),
        EasingFunction::StepEnd => out.push(Token::Ident(String::from_str("step-end"))),
    }
    assert(toks_view(out@) =~= toks_view(old(out)@).push(TokV::Ident(v.kw_text())));
}

/// Pushes the token of an iteration count onto `out`.
fn push_iteration_token(v: AnimationIterationCount, out: &mut Vec<Token>)
    ensures
        toks_view(final(out)@) == toks_view(old(out)@).push(v.spec_tok()),
{
    match v {
        AnimationIterationCount::Number(n) => out.push(Token::Number(n)),
        AnimationIterationCount::Infinite => out.push(Token::Ident(String::from_str("infinite"))),
    }
    assert(toks_view(out@) =~= toks_view(old(out)@).push(v.spec_tok()));
}

/// Pushes the keyword token of a direction onto `out`.
fn push_direction_token(v: AnimationDirection, out: &mut Vec<Token>)
    ensures
        toks_view(final(out)@) == toks_view(old(out)@).push(TokV::Ident(v.kw_text())),
{
    match v {
        AnimationDirection::Normal => out.push(Token::Ident(String::from_str("normal"))),
        AnimationDirection::Reverse => out.push(Token::Ident(String::from_str("reverse"))),
        AnimationDirection::Alternate => out.push(Token::Ident(String::from_str("alternate"))),
        AnimationDirection::AlternateReverse => out.push(
            Token::Ident(String::from_str("alternate-reverse")),
        ),
    }
    assert(toks_view(out@) =~= toks_view(old(out)@).push(TokV::Ident(v.kw_text())));
}

/// Pushes the keyword token of a fill mode onto `out`.
fn push_fill_token(v: AnimationFillMode, out: &mut Vec<Token>)
    ensures
        toks_view(final(out)@) == toks_view(old(out)@).push(TokV::Ident(v.kw_text())),
{
    match v {
        AnimationFillMode::NoneKw => out.push(Token::Ident(String::from_str("none"))),
        AnimationFillMode::Forwards => out.push(Token::Ident(String::from_str("forwards"))),
        AnimationFillMode::Backwards => out.push(Token::Ident(String::from_str("backwards"))),
        AnimationFillMode::Both => out.push(Token::Ident(String::from_str("both"))),
    }
    assert(toks_view(out@) =~= toks_view(old(out)@).push(TokV::Ident(v.kw_text())));
}

/// Pushes the keyword token of a play state onto `out`.
fn push_play_token(v: AnimationPlayState, out: &mut Vec<Token>)
    ensures
        toks_view(final(out)@) == toks_view(old(out)@).push(TokV::Ident(v.kw_text())),
{
    match v {
        AnimationPlayState::Running => out.push(Token::Ident(String::from_str("running"))),
        AnimationPlayState::Paused => out.push(Token::Ident(String::from_str("paused"))),
    }
    assert(toks_view(out@) =~= toks_view(old(out)@).push(TokV::Ident(v.kw_text())));
}

/// Pushes the duration segment: printed when duration or delay is non-zero.
fn push_seg_duration(dur: Time, del: Time, out: &mut Vec<Token>)
    ensures
        toks_view(final(out)@) == toks_view(old(out)@) + (if dur.ms != 0 || del.ms != 0 {
            seq![TokV::Time(dur)]
        } else {
            Seq::<TokV>::empty()
        }),
{
    if !dur.is_zero() || !del.is_zero() {
        out.push(Token::Time(dur));
        assert(toks_view(out@) =~= toks_view(old(out)@) + seq![TokV::Time(dur)]);
    } else {
        assert(toks_view(out@) =~= toks_view(old(out)@) + Seq::<TokV>::empty());
    }
}

/// Pushes the timing-function segment: printed when non-default or when
/// the name text parses as an easing keyword.
fn push_seg_timing(tf: EasingFunction, nm: &str, out: &mut Vec<Token>)
    ensures
        toks_view(final(out)@) == toks_view(old(out)@) + (if tf != EasingFunction::Ease
            || EasingFunction::sp_from_ident(nm@) is Some {
            seq![TokV::Ident(tf.kw_text())]
        } else {
            Seq::<TokV>::empty()
        }),
{
    if !tf.is_ease() || EasingFunction::is_ident(nm) {
        push_easing_token(tf, out);
        assert(toks_view(out@) =~= toks_view(old(out)@) + seq![TokV::Ident(tf.kw_text())]);
    } else {
        assert(toks_view(out@) =~= toks_view(old(out)@) + Seq::<TokV>::empty());
    }
}

/// Pushes the delay segment: printed when non-zero.
fn push_seg_delay(del: Time, out: &mut Vec<Token>)
    ensures
        toks_view(final(out)@) == toks_view(old(out)@) + (if del.ms != 0 {
            seq![TokV::Time(del)]
        } else {
            Seq::<TokV>::empty()
        }),
{
    if !del.is_zero() {
        out.push(Token::Time(del));
        assert(toks_view(out@) =~= toks_view(old(out)@) + seq![TokV::Time(del)]);
    } else {
        assert(toks_view(out@) =~= toks_view(old(out)@) + Seq::<TokV>::empty());
    }
}

/// Pushes the iteration-count segment: printed when non-default or when
/// the name text is exactly `infinite`.
fn push_seg_iteration(ic: AnimationIterationCount, nm: &str, out: &mut Vec<Token>)
    ensures
        toks_view(final(out)@) == toks_view(old(out)@) + (if ic
            != AnimationIterationCount::Number(1i64) || nm@ == "infinite"@ {
            seq![ic.spec_tok()]
        } else {
            Seq::<TokV>::empty()
        }),
{
    let d = AnimationIterationCount::Number(1);
    if !(ic == d) || crate::text::str_eq(nm, "infinite") {
        push_iteration_token(ic, out);
        assert(toks_view(out@) =~= toks_view(old(out)@) + seq![ic.spec_tok()]);
    } else {
        assert(toks_view(out@) =~= toks_view(old(out)@) + Seq::<TokV>::empty());
    }
}

/// Pushes the direction segment: printed when non-default or when the
/// name text parses as a direction keyword.
fn push_seg_direction(dir: AnimationDirection, nm: &str, out: &mut Vec<Token>)
    ensures
        toks_view(final(out)@) == toks_view(old(out)@) + (if dir != AnimationDirection::Normal
            || AnimationDirection::sp_from_ident(nm@) is Some {
            seq![TokV::Ident(dir.kw_text())]
        } else {
            Seq::<TokV>::empty()
        }),
{
    if !(dir == AnimationDirection::Normal) || AnimationDirection::parse_string(nm).is_some() {
        push_direction_token(dir, out);
        assert(toks_view(out@) =~= toks_view(old(out)@) + seq![TokV::Ident(dir.kw_text())]);
    } else {
        assert(toks_view(out@) =~= toks_view(old(out)@) + Seq::<TokV>::empty());
    }
}

/// Pushes the fill-mode segment: printed when non-default, or when the
/// name text is not case-insensitively `none` and parses as a fill-mode
/// keyword.
fn push_seg_fill(fm: AnimationFillMode, nm: &str, out: &mut Vec<Token>)
    ensures
        toks_view(final(out)@) == toks_view(old(out)@) + (if fm != AnimationFillMode::NoneKw || (
        !ci_eq(nm@, "none"@) && AnimationFillMode::sp_from_ident(nm@) is Some) {
            seq![TokV::Ident(fm.kw_text())]
        } else {
            Seq::<TokV>::empty()
        }),
{
    if !(fm == AnimationFillMode::NoneKw) || (!crate::text::eq_ignore_case(nm, "none")
        && AnimationFillMode::parse_string(nm).is_some()) {
        push_fill_token(fm, out);
        assert(toks_view(out@) =~= toks_view(old(out)@) + seq![TokV::Ident(fm.kw_text())]);
    } else {
        assert(toks_view(out@) =~= toks_view(old(out)@) + Seq::<TokV>::empty());
    }
}

/// Pushes the play-state segment: printed when non-default or when the
/// name text parses as a play-state keyword.
fn push_seg_play(ps: AnimationPlayState, nm: &str, out: &mut Vec<Token>)
    ensures
        toks_view(final(out)@) == toks_view(old(out)@) + (if ps != AnimationPlayState::Running
            || AnimationPlayState::sp_from_ident(nm@) is Some {
            seq![TokV::Ident(ps.kw_text())]
        } else {
            Seq::<TokV>::empty()
        }),
{
    if !(ps == AnimationPlayState::Running) || AnimationPlayState::parse_string(nm).is_some() {
        push_play_token(ps, out);
        assert(toks_view(out@) =~= toks_view(old(out)@) + seq![TokV::Ident(ps.kw_text())]);
    } else {
        assert(toks_view(out@) =~= toks_view(old(out)@) + Seq::<TokV>::empty());
    }
}

impl Animation {
    /// The disambiguating fields printed ahead of a name: everything the
    /// greedy parser must see filled before it reaches the name token.
    pub open spec fn lead_tokens(e: EntryV) -> Seq<TokV> {
        seg_duration(e) + seg_timing(e) + seg_delay(e) + seg_iteration(e) + seg_direction(e)
            + seg_fill(e) + seg_play(e)
    }

    /// Pushes the disambiguating fields of a non-`none` entry onto `out`.
    fn push_lead_tokens(&self, out: &mut Vec<Token>)
        requires
            !(self@.name is NoneKw),
        ensures
            toks_view(final(out)@) == toks_view(old(out)@) + Self::lead_tokens(self@),
    {
        let ghost e = self@;
        let ghost g0 = toks_view(old(out)@);
        match &self.name {
            AnimationName::NoneKw => {
                proof {
                    assert(false);
                }
            },
            AnimationName::Ident(nm) | AnimationName::String(nm) => {
                push_seg_duration(self.duration, self.delay, out);
                assert(toks_view(out@) == g0 + seg_duration(e));
                let ghost g1 = toks_view(out@);
                push_seg_timing(self.timing_function, nm.as_str(), out);
                assert(toks_view(out@) == g1 + seg_timing(e));
                let ghost g2 = toks_view(out@);
                push_seg_delay(self.delay, out);
                assert(toks_view(out@) == g2 + seg_delay(e));
                let ghost g3 = toks_view(out@);
                push_seg_iteration(self.iteration_count, nm.as_str(), out);
                assert(toks_view(out@) == g3 + seg_iteration(e));
                let ghost g4 = toks_view(out@);
                push_seg_direction(self.direction, nm.as_str(), out);
                assert(toks_view(out@) == g4 + seg_direction(e));
                let ghost g5 = toks_view(out@);
                push_seg_fill(self.fill_mode, nm.as_str(), out);
                assert(toks_view(out@) == g5 + seg_fill(e));
                let ghost g6 = toks_view(out@);
                push_seg_play(self.play_state, nm.as_str(), out);
                assert(toks_view(out@) == g6 + seg_play(e));
                proof {
                    let s1 = seg_duration(e);
                    let s2 = seg_timing(e);
                    let s3 = seg_delay(e);
                    let s4 = seg_iteration(e);
                    let s5 = seg_direction(e);
                    let s6 = seg_fill(e);
                    let s7 = seg_play(e);
                    lemma_concat_associative(g0, s1, s2);
                    lemma_concat_associative(g0, s1 + s2, s3);
                    lemma_concat_associative(g0, s1 + s2 + s3, s4);
                    lemma_concat_associative(g0, s1 + s2 + s3 + s4, s5);
                    lemma_concat_associative(g0, s1 + s2 + s3 + s4 + s5, s6);
                    lemma_concat_associative(g0, s1 + s2 + s3 + s4 + s5 + s6, s7);
                }
            },
        }
    }

    /// Pushes the tokens this entry prints as onto `out`.
    pub fn push_tokens(&self, out: &mut Vec<Token>)
        ensures
            toks_view(final(out)@) == toks_view(old(out)@) + entry_tokens(self@),
    {
        let ghost e = self@;
        let ghost g0 = toks_view(old(out)@);
        if matches!(&self.name, AnimationName::NoneKw) {
            out.push(Token::Ident(String::from_str("none")));
            assert(toks_view(out@) =~= g0 + entry_tokens(e));
        } else {
            self.push_lead_tokens(out);
            let ghost g7 = toks_view(out@);
            let nt = self.name.to_token();
            out.push(nt);
            assert(toks_view(out@) =~= g7.push(name_tok(e.name)));
            let ghost g8 = toks_view(out@);
            if !self.timeline.is_auto() {
                self.timeline.push_tokens(out);
            }
            assert(toks_view(out@) =~= g8 + seg_timeline(e));
            proof {
                let lead = Self::lead_tokens(e);
                assert(g8 =~= g0 + (lead + seq![name_tok(e.name)]));
                assert(toks_view(out@) =~= g0 + ((lead + seq![name_tok(e.name)])
                    + seg_timeline(e)));
                assert(entry_tokens(e) =~= (lead + seq![name_tok(e.name)]) + seg_timeline(e));
                assert(toks_view(out@) =~= g0 + entry_tokens(e));
            }
        }
    }

    /// Appends the canonical text of the entry to `dest`.
    pub fn to_css(&self, dest: &mut String)
        ensures
            final(dest)@ == old(dest)@ + render(entry_tokens(self@)),
    {
        let mut toks: Vec<Token> = Vec::new();
        self.push_tokens(&mut toks);
        proof {
            assert(toks_view(toks@) =~= entry_tokens(self@));
        }
        render_tokens(&toks, dest);
    }
}

/// A comma-separated list of animations.
pub type AnimationList = Vec<Animation>;

/// The views of an animation list.
pub open spec fn entries_view(l: Seq<Animation>) -> Seq<EntryV> {
    l.map_values(|a: Animation| a@)
}

/// A syntax error: the position of the unexpected token.
#[derive(Debug, Clone, Copy, PartialEq, Eq, Structural)]
pub struct ParseError {
    /// The index of the token that no sub-grammar accepted.
    pub pos: usize,
}

/// Parses a comma-separated, non-empty list of entries that must consume
/// the whole stream; a token no entry or comma accounts for is an error
/// carrying its position.
pub open spec fn sp_parse_list(t: Seq<TokV>, i: int) -> Result<(Seq<EntryV>, int), int>
    decreases t.len() - i,
{
    let (e, j) = sp_parse_entry(t, i);
    if !(i <= j <= t.len()) {
        Err(i)
    } else if j == t.len() {
        Ok((seq![e], j))
    } else if t[j] is Comma {
        match sp_parse_list(t, j + 1) {
            Ok((rest, k)) => Ok((seq![e] + rest, k)),
            Err(p) => Err(p),
        }
    } else {
        Err(j)
    }
}

impl Animation {
    /// Parses a full declaration value: a comma-separated list of entries
    /// covering every token.  Returns the list, or the syntax error with
    /// the position of the first token that could not be consumed.
    pub fn parse_list(toks: &Vec<Token>) -> (r: Result<Vec<Animation>, ParseError>)
        ensures
            match r {
                Ok(l) => sp_parse_list(toks_view(toks@), 0) == Ok::<_, int>(
                    (entries_view(l@), toks@.len() as int),
                ),
                Err(e) => sp_parse_list(toks_view(toks@), 0) == Err::<(Seq<EntryV>, int), _>(
                    e.pos as int,
                ),
            },
    {
        let ghost tv = toks_view(toks@);
        let mut out: Vec<Animation> = Vec::new();
        let mut pos: usize = 0;
        proof {
            if let Ok((rest, k)) = sp_parse_list(tv, 0) {
                assert(entries_view(out@) + rest =~= rest);
            }
        }
        loop
            invariant
                pos <= toks@.len(),
                tv == toks_view(toks@),
                match sp_parse_list(tv, pos as int) {
                    Ok((rest, k)) => sp_parse_list(tv, 0) == Ok::<_, int>(
                        (entries_view(out@) + rest, k),
                    ),
                    Err(p) => sp_parse_list(tv, 0) == Err::<(Seq<EntryV>, int), _>(p),
                },
            decreases toks@.len() - pos,
        {
            let (e, j) = Animation::parse(toks, pos);
            let ghost evs = entries_view(out@);
            if j == toks.len() {
                out.push(e);
                proof {
                    assert(entries_view(out@) =~= evs.push(e@));
                    assert(evs.push(e@) =~= evs + seq![e@]);
                    assert(sp_parse_list(tv, pos as int) == Ok::<_, int>(
                        (seq![e@], toks@.len() as int),
                    ));
                }
                return Ok(out);
            }
            proof {
                assert(tv[j as int] == toks@[j as int]@);
            }
            match &toks[j] {
                Token::Comma => {
                    out.push(e);
                    proof {
                        assert(entries_view(out@) =~= evs.push(e@));
                        assert(evs.push(e@) =~= evs + seq![e@]);
                        if let Ok((rest2, k2)) = sp_parse_list(tv, j + 1 as int) {
                            assert(evs + (seq![e@] + rest2) =~= (evs + seq![e@]) + rest2);
                        }
                    }
                    pos = j + 1;
                },
                _ => {
                    return Err(ParseError { pos: j });
                },
            }
        }
    }
}

/// The tokens a list prints as: entries joined by commas.
pub open spec fn list_tokens(l: Seq<EntryV>) -> Seq<TokV>
    decreases l.len(),
{
    if l.len() == 0 {
        Seq::<TokV>::empty()
    } else if l.len() == 1 {
        entry_tokens(l[0])
    } else {
        list_tokens(l.drop_last()) + seq![TokV::Comma] + entry_tokens(l.last())
    }
}

/// Pushes the tokens of a whole list onto `out`.
pub fn push_list_tokens(list: &Vec<Animation>, out: &mut Vec<Token>)
    ensures
        toks_view(final(out)@) == toks_view(old(out)@) + list_tokens(entries_view(list@)),
{
    let ghost lv = entries_view(list@);
    let mut i: usize = 0;
    while i < list.len()
        invariant
            i <= list@.len(),
            lv == entries_view(list@),
            lv.len() == list@.len(),
            toks_view(out@) == toks_view(old(out)@) + list_tokens(lv.take(i as int)),
        decreases list@.len() - i,
    {
        if i > 0 {
            let ghost b = out@;
            out.push(Token::Comma);
            assert(toks_view(out@) =~= toks_view(b).push(TokV::Comma));
        }
        list[i].push_tokens(out);
        proof {
            let iplus = i + 1 as int;
            assert(lv.take(iplus).drop_last() =~= lv.take(i as int));
            assert(lv.take(iplus).last() == lv[i as int]);
            assert(toks_view(out@) =~= toks_view(old(out)@) + list_tokens(lv.take(iplus)));
        }
        i = i + 1;
    }
    proof {
        assert(lv.take(list@.len() as int) =~= lv);
    }
}

/// Appends the canonical text of a whole list to `dest`.
pub fn list_to_css(list: &Vec<Animation>, dest: &mut String)
    ensures
        final(dest)@ == old(dest)@ + render(list_tokens(entries_view(list@))),
{
    let mut toks: Vec<Token> = Vec::new();
    push_list_tokens(list, &mut toks);
    proof {
        assert(toks_view(toks@) =~= list_tokens(entries_view(list@)));
    }
    render_tokens(&toks, dest);
}

} // verus!

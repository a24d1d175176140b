//! The reconciliation engine: merges a source-ordered stream of animation
//! declarations, possibly carrying different vendor-prefix sets, into the
//! smallest correct output sequence, collapsing back to the shorthand when
//! legal.

use vstd::prelude::*;
use vstd::seq_lib::lemma_concat_associative;
use crate::vendor::VendorPrefix;
use crate::values::{
    Time, EasingFunction, AnimationName, NameV, AnimationIterationCount, AnimationDirection,
    AnimationPlayState, AnimationFillMode,
};
use crate::timeline::{AnimationTimeline, TimelineV};
use crate::shorthand::{Animation, EntryV, entries_view};
use crate::tokens::{Token, TokV};
use crate::properties::{
    Property, PropV, PropertyId, UnparsedProperty, UnparsedV, TokenOrValue, TokOrValV, names_view,
    timelines_view, props_view, tokens_or_values_view, is_animation_property,
    sp_is_animation_property,
};

verus! {

/// The answers of the external compatibility oracle that the engine needs:
/// whether every active target supports the combined timeline-in-shorthand
/// syntax.  The engine never computes compatibility itself.
#[derive(Debug, Clone, Copy, PartialEq, Eq, Structural)]
pub struct HandlerContext {
    /// Whether a timeline may be folded into the shorthand text.
    pub timeline_shorthand_supported: bool,
}

/// The reconciliation state for one declaration block: at most one
/// (value list, prefix set) pair per longhand category, at most one
/// unprefixed timeline list, and a dirty flag.
#[derive(Debug, Default)]
pub struct AnimationHandler {
    names: Option<(Vec<AnimationName>, VendorPrefix)>,
    durations: Option<(Vec<Time>, VendorPrefix)>,
    timing_functions: Option<(Vec<EasingFunction>, VendorPrefix)>,
    iteration_counts: Option<(Vec<AnimationIterationCount>, VendorPrefix)>,
    directions: Option<(Vec<AnimationDirection>, VendorPrefix)>,
    play_states: Option<(Vec<AnimationPlayState>, VendorPrefix)>,
    delays: Option<(Vec<Time>, VendorPrefix)>,
    fill_modes: Option<(Vec<AnimationFillMode>, VendorPrefix)>,
    timelines: Option<Vec<AnimationTimeline>>,
    has_any: bool,
}

/// The mathematical view of the reconciliation state.
#[verifier::ext_equal]
pub struct HandlerV {
    /// The held animation-name list, with its prefixes.
    pub names: Option<(Seq<NameV>, VendorPrefix)>,
    /// The held animation-duration list, with its prefixes.
    pub durations: Option<(Seq<Time>, VendorPrefix)>,
    /// The held animation-timing-function list, with its prefixes.
    pub timing_functions: Option<(Seq<EasingFunction>, VendorPrefix)>,
    /// The held animation-iteration-count list, with its prefixes.
    pub iteration_counts: Option<(Seq<AnimationIterationCount>, VendorPrefix)>,
    /// The held animation-direction list, with its prefixes.
    pub directions: Option<(Seq<AnimationDirection>, VendorPrefix)>,
    /// The held animation-play-state list, with its prefixes.
    pub play_states: Option<(Seq<AnimationPlayState>, VendorPrefix)>,
    /// The held animation-delay list, with its prefixes.
    pub delays: Option<(Seq<Time>, VendorPrefix)>,
    /// The held animation-fill-mode list, with its prefixes.
    pub fill_modes: Option<(Seq<AnimationFillMode>, VendorPrefix)>,
    /// The held timeline list, always unprefixed.
    pub timelines: Option<Seq<TimelineV>>,
    /// Whether anything is held.
    pub has_any: bool,
}

/// The view of a held category whose elements carry no interior view.
pub open spec fn copy_slot_view<T>(o: Option<(Vec<T>, VendorPrefix)>) -> Option<
    (Seq<T>, VendorPrefix),
> {
    match o {
        Some((l, vp)) => Some((l@, vp)),
        None => None,
    }
}

/// The view of the held animation-name category.
pub open spec fn names_slot_view(o: Option<(Vec<AnimationName>, VendorPrefix)>) -> Option<
    (Seq<NameV>, VendorPrefix),
> {
    match o {
        Some((l, vp)) => Some((names_view(l@), vp)),
        None => None,
    }
}

/// The view of the held timeline list.
pub open spec fn timelines_slot_view(o: Option<Vec<AnimationTimeline>>) -> Option<Seq<TimelineV>> {
    match o {
        Some(l) => Some(timelines_view(l@)),
        None => None,
    }
}

impl View for AnimationHandler {
    type V = HandlerV;

    closed spec fn view(&self) -> HandlerV {
        HandlerV {
            names: names_slot_view(self.names),
            durations: copy_slot_view(self.durations),
            timing_functions: copy_slot_view(self.timing_functions),
            iteration_counts: copy_slot_view(self.iteration_counts),
            directions: copy_slot_view(self.directions),
            play_states: copy_slot_view(self.play_states),
            delays: copy_slot_view(self.delays),
            fill_modes: copy_slot_view(self.fill_modes),
            timelines: timelines_slot_view(self.timelines),
            has_any: self.has_any,
        }
    }
}

/// The empty reconciliation state.
pub open spec fn empty_state() -> HandlerV {
    HandlerV {
        names: None,
        durations: None,
        timing_functions: None,
        iteration_counts: None,
        directions: None,
        play_states: None,
        delays: None,
        fill_modes: None,
        timelines: None,
        has_any: false,
    }
}

impl HandlerV {
    /// The state invariant: a clean state holds nothing.
    pub open spec fn wf(self) -> bool {
        !self.has_any ==> self == empty_state()
    }

    /// All eight required longhand categories are held.
    pub open spec fn all_eight(self) -> bool {
        self.names is Some && self.durations is Some && self.timing_functions is Some
            && self.iteration_counts is Some && self.directions is Some && self.play_states
            is Some && self.delays is Some && self.fill_modes is Some
    }
}

/// The intersection of the eight held prefix sets.
pub open spec fn sp_inter(st: HandlerV) -> VendorPrefix {
    st.names->Some_0.1.spec_intersect(st.durations->Some_0.1).spec_intersect(
        st.timing_functions->Some_0.1,
    ).spec_intersect(st.iteration_counts->Some_0.1).spec_intersect(
        st.directions->Some_0.1,
    ).spec_intersect(st.play_states->Some_0.1).spec_intersect(
        st.delays->Some_0.1,
    ).spec_intersect(st.fill_modes->Some_0.1)
}

/// Shorthand collapse fires when all eight categories are held with lists
/// of one length, their prefix intersection is non-empty, and a held
/// timeline list, if present, has that same length.
pub open spec fn sp_can_collapse(st: HandlerV) -> bool {
    let len = st.names->Some_0.0.len();
    st.all_eight() && !sp_inter(st).spec_is_empty() && st.durations->Some_0.0.len() == len
        && st.timing_functions->Some_0.0.len() == len && st.iteration_counts->Some_0.0.len()
        == len && st.directions->Some_0.0.len() == len && st.play_states->Some_0.0.len() == len
        && st.delays->Some_0.0.len() == len && st.fill_modes->Some_0.0.len() == len && (
    st.timelines is Some ==> st.timelines->Some_0.len() == len)
}

/// The timeline is emitted as a separate declaration rather than folded
/// into the shorthand whenever one is held with a non-default member and
/// either the intersection is not exactly "unprefixed" or the oracle
/// reports the combined syntax unsupported.
pub open spec fn sp_separate_timeline(st: HandlerV, ctx: HandlerContext) -> bool {
    &&& st.timelines is Some
    &&& exists|k: int|
        0 <= k < st.timelines->Some_0.len() && st.timelines->Some_0[k] != TimelineV::Auto
    &&& (!sp_inter(st).spec_is_unprefixed_only() || !ctx.timeline_shorthand_supported)
}

/// The entries of the collapsed shorthand: the held lists combined
/// positionally; the timeline is folded in unless it is emitted
/// separately or absent.
pub open spec fn sp_entries(st: HandlerV, ctx: HandlerContext) -> Seq<EntryV> {
    Seq::new(
        st.names->Some_0.0.len(),
        |k: int|
            EntryV {
                name: st.names->Some_0.0[k],
                duration: st.durations->Some_0.0[k],
                timing_function: st.timing_functions->Some_0.0[k],
                iteration_count: st.iteration_counts->Some_0.0[k],
                direction: st.directions->Some_0.0[k],
                play_state: st.play_states->Some_0.0[k],
                delay: st.delays->Some_0.0[k],
                fill_mode: st.fill_modes->Some_0.0[k],
                timeline: if sp_separate_timeline(st, ctx) || st.timelines is None {
                    TimelineV::Auto
                } else {
                    st.timelines->Some_0[k]
                },
            },
    )
}

/// The declarations the collapse itself emits: the one shorthand covering
/// the intersection, then the separate timeline when so decided.
pub open spec fn sp_shorthand_part(st: HandlerV, ctx: HandlerContext) -> Seq<PropV> {
    if sp_can_collapse(st) {
        seq![PropV::Animation(sp_entries(st, ctx), sp_inter(st))] + (if sp_separate_timeline(
            st,
            ctx,
        ) {
            seq![PropV::AnimationTimeline(st.timelines->Some_0)]
        } else {
            Seq::<PropV>::empty()
        })
    } else {
        Seq::<PropV>::empty()
    }
}

/// A held category with the collapsed prefixes removed.
pub open spec fn sp_reduce<T>(o: Option<(Seq<T>, VendorPrefix)>, inter: VendorPrefix) -> Option<
    (Seq<T>, VendorPrefix),
> {
    match o {
        Some((l, vp)) => Some((l, vp.spec_remove(inter))),
        None => None,
    }
}

/// The state left after the attempted collapse: the consumed prefixes are
/// removed from each category and the timeline list is gone.
pub open spec fn sp_after_collapse(st: HandlerV, ctx: HandlerContext) -> HandlerV {
    if sp_can_collapse(st) {
        HandlerV {
            names: sp_reduce(st.names, sp_inter(st)),
            durations: sp_reduce(st.durations, sp_inter(st)),
            timing_functions: sp_reduce(st.timing_functions, sp_inter(st)),
            iteration_counts: sp_reduce(st.iteration_counts, sp_inter(st)),
            directions: sp_reduce(st.directions, sp_inter(st)),
            play_states: sp_reduce(st.play_states, sp_inter(st)),
            delays: sp_reduce(st.delays, sp_inter(st)),
            fill_modes: sp_reduce(st.fill_modes, sp_inter(st)),
            timelines: None,
            has_any: st.has_any,
        }
    } else {
        st
    }
}

/// The animation-name longhand a flush emits, when its prefixes survive.
pub open spec fn sp_left_names(o: Option<(Seq<NameV>, VendorPrefix)>) -> Seq<PropV> {
    match o {
        Some((l, vp)) => if !vp.spec_is_empty() {
            seq![PropV::AnimationName(l, vp)]
        } else {
            Seq::<PropV>::empty()
        },
        None => Seq::<PropV>::empty(),
    }
}

/// The animation-duration longhand a flush emits.
pub open spec fn sp_left_durations(o: Option<(Seq<Time>, VendorPrefix)>) -> Seq<PropV> {
    match o {
        Some((l, vp)) => if !vp.spec_is_empty() {
            seq![PropV::AnimationDuration(l, vp)]
        } else {
            Seq::<PropV>::empty()
        },
        None => Seq::<PropV>::empty(),
    }
}

/// The animation-timing-function longhand a flush emits.
pub open spec fn sp_left_timing_functions(o: Option<(Seq<EasingFunction>, VendorPrefix)>) -> Seq<
    PropV,
> {
    match o {
        Some((l, vp)) => if !vp.spec_is_empty() {
            seq![PropV::AnimationTimingFunction(l, vp)]
        } else {
            Seq::<PropV>::empty()
        },
        None => Seq::<PropV>::empty(),
    }
}

/// The animation-iteration-count longhand a flush emits.
pub open spec fn sp_left_iteration_counts(
    o: Option<(Seq<AnimationIterationCount>, VendorPrefix)>,
) -> Seq<PropV> {
    match o {
        Some((l, vp)) => if !vp.spec_is_empty() {
            seq![PropV::AnimationIterationCount(l, vp)]
        } else {
            Seq::<PropV>::empty()
        },
        None => Seq::<PropV>::empty(),
    }
}

/// The animation-direction longhand a flush emits.
pub open spec fn sp_left_directions(o: Option<(Seq<AnimationDirection>, VendorPrefix)>) -> Seq<
    PropV,
> {
    match o {
        Some((l, vp)) => if !vp.spec_is_empty() {
            seq![PropV::AnimationDirection(l, vp)]
        } else {
            Seq::<PropV>::empty()
        },
        None => Seq::<PropV>::empty(),
    }
}

/// The animation-play-state longhand a flush emits.
pub open spec fn sp_left_play_states(o: Option<(Seq<AnimationPlayState>, VendorPrefix)>) -> Seq<
    PropV,
> {
    match o {
        Some((l, vp)) => if !vp.spec_is_empty() {
            seq![PropV::AnimationPlayState(l, vp)]
        } else {
            Seq::<PropV>::empty()
        },
        None => Seq::<PropV>::empty(),
    }
}

/// The animation-delay longhand a flush emits.
pub open spec fn sp_left_delays(o: Option<(Seq<Time>, VendorPrefix)>) -> Seq<PropV> {
    match o {
        Some((l, vp)) => if !vp.spec_is_empty() {
            seq![PropV::AnimationDelay(l, vp)]
        } else {
            Seq::<PropV>::empty()
        },
        None => Seq::<PropV>::empty(),
    }
}

/// The animation-fill-mode longhand a flush emits.
pub open spec fn sp_left_fill_modes(o: Option<(Seq<AnimationFillMode>, VendorPrefix)>) -> Seq<
    PropV,
> {
    match o {
        Some((l, vp)) => if !vp.spec_is_empty() {
            seq![PropV::AnimationFillMode(l, vp)]
        } else {
            Seq::<PropV>::empty()
        },
        None => Seq::<PropV>::empty(),
    }
}

/// The timeline declaration a flush emits when a timeline list is still
/// held.
pub open spec fn sp_left_timelines(o: Option<Seq<TimelineV>>) -> Seq<PropV> {
    match o {
        Some(l) => seq![PropV::AnimationTimeline(l)],
        None => Seq::<PropV>::empty(),
    }
}

/// Everything a flush emits as individual longhands, in the fixed category
/// order, after the attempted collapse.
pub open spec fn sp_leftovers(st: HandlerV) -> Seq<PropV> {
    sp_left_names(st.names) + sp_left_durations(st.durations) + sp_left_timing_functions(
        st.timing_functions,
    ) + sp_left_iteration_counts(st.iteration_counts) + sp_left_directions(st.directions)
        + sp_left_play_states(st.play_states) + sp_left_delays(st.delays) + sp_left_fill_modes(
        st.fill_modes,
    ) + sp_left_timelines(st.timelines)
}

/// Everything one flush emits: nothing when the state is clean, else the
/// attempted collapse followed by the surviving longhands.
pub open spec fn sp_flush(st: HandlerV, ctx: HandlerContext) -> Seq<PropV> {
    if !st.has_any {
        Seq::<PropV>::empty()
    } else {
        sp_shorthand_part(st, ctx) + sp_leftovers(sp_after_collapse(st, ctx))
    }
}

/// Whether a longhand arrival must flush first: the category holds a
/// different value under prefixes that do not yet include the new ones.
pub open spec fn sp_needs<T>(slot: Option<(Seq<T>, VendorPrefix)>, v: Seq<T>, vp: VendorPrefix) -> bool {
    match slot {
        Some((cur, p)) => cur != v && !p.spec_contains(vp),
        None => false,
    }
}

/// Recording a value: it replaces the held one and its prefixes join any
/// still held for the category.
pub open spec fn sp_record<T>(
    slot: Option<(Seq<T>, VendorPrefix)>,
    v: Seq<T>,
    vp: VendorPrefix,
) -> Option<(Seq<T>, VendorPrefix)> {
    match slot {
        Some((_, p)) => Some((v, p.spec_union(vp))),
        None => Some((v, vp)),
    }
}

/// The name list of a shorthand, decomposed per field.
pub open spec fn names_of(el: Seq<EntryV>) -> Seq<NameV> {
    el.map_values(|e: EntryV| e.name)
}

/// The duration list of a shorthand.
pub open spec fn durations_of(el: Seq<EntryV>) -> Seq<Time> {
    el.map_values(|e: EntryV| e.duration)
}

/// The timing-function list of a shorthand.
pub open spec fn timing_functions_of(el: Seq<EntryV>) -> Seq<EasingFunction> {
    el.map_values(|e: EntryV| e.timing_function)
}

/// The iteration-count list of a shorthand.
pub open spec fn iteration_counts_of(el: Seq<EntryV>) -> Seq<AnimationIterationCount> {
    el.map_values(|e: EntryV| e.iteration_count)
}

/// The direction list of a shorthand.
pub open spec fn directions_of(el: Seq<EntryV>) -> Seq<AnimationDirection> {
    el.map_values(|e: EntryV| e.direction)
}

/// The play-state list of a shorthand.
pub open spec fn play_states_of(el: Seq<EntryV>) -> Seq<AnimationPlayState> {
    el.map_values(|e: EntryV| e.play_state)
}

/// The delay list of a shorthand.
pub open spec fn delays_of(el: Seq<EntryV>) -> Seq<Time> {
    el.map_values(|e: EntryV| e.delay)
}

/// The fill-mode list of a shorthand.
pub open spec fn fill_modes_of(el: Seq<EntryV>) -> Seq<AnimationFillMode> {
    el.map_values(|e: EntryV| e.fill_mode)
}

/// The timeline list of a shorthand.
pub open spec fn timelines_of(el: Seq<EntryV>) -> Seq<TimelineV> {
    el.map_values(|e: EntryV| e.timeline)
}

/// Whether a shorthand arrival must flush first: some decomposed field
/// list disagrees with its held value under prefixes not yet recorded.
pub open spec fn sp_shorthand_needs(st: HandlerV, el: Seq<EntryV>, vp: VendorPrefix) -> bool {
    ||| sp_needs(st.names, names_of(el), vp)
    ||| sp_needs(st.durations, durations_of(el), vp)
    ||| sp_needs(st.timing_functions, timing_functions_of(el), vp)
    ||| sp_needs(st.iteration_counts, iteration_counts_of(el), vp)
    ||| sp_needs(st.directions, directions_of(el), vp)
    ||| sp_needs(st.play_states, play_states_of(el), vp)
    ||| sp_needs(st.delays, delays_of(el), vp)
    ||| sp_needs(st.fill_modes, fill_modes_of(el), vp)
}

/// The substitution applied to one unparsed token of the shorthand: a bare
/// identifier recognized as no sibling keyword, and any quoted string,
/// becomes an explicit name reference so identifier scoping can see it.
pub open spec fn sp_subst_tok(t: TokOrValV) -> TokOrValV {
    match t {
        TokOrValV::Token(TokV::Ident(id)) => if AnimationDirection::sp_from_ident(id) is None
            && AnimationPlayState::sp_from_ident(id) is None && AnimationFillMode::sp_from_ident(
            id,
        ) is None && EasingFunction::sp_from_ident(id) is None && id != "infinite"@ && id
            != "auto"@ {
            TokOrValV::AnimationName(NameV::Ident(id))
        } else {
            t
        },
        TokOrValV::Token(TokV::QuotedStr(q)) => TokOrValV::AnimationName(NameV::Str(q)),
        _ => t,
    }
}

/// The substitution applied to a whole unparsed declaration: only values
/// of the shorthand property are rewritten.
pub open spec fn sp_substitute(u: UnparsedV) -> UnparsedV {
    if u.property_id is Animation {
        UnparsedV {
            property_id: u.property_id,
            value: u.value.map_values(|t: TokOrValV| sp_subst_tok(t)),
        }
    } else {
        u
    }
}

/// Whether the engine consumes a declaration at all.
pub open spec fn sp_handled(p: PropV) -> bool {
    match p {
        PropV::AnimationComposition(_) => false,
        PropV::Unparsed(u) => sp_is_animation_property(u.property_id),
        _ => true,
    }
}

/// What one consumed declaration makes the engine emit.
pub open spec fn sp_handle_out(st: HandlerV, p: PropV, ctx: HandlerContext) -> Seq<PropV> {
    match p {
        PropV::AnimationName(v, vp) => if sp_needs(st.names, v, vp) {
            sp_flush(st, ctx)
        } else {
            Seq::<PropV>::empty()
        },
        PropV::AnimationDuration(v, vp) => if sp_needs(st.durations, v, vp) {
            sp_flush(st, ctx)
        } else {
            Seq::<PropV>::empty()
        },
        PropV::AnimationTimingFunction(v, vp) => if sp_needs(st.timing_functions, v, vp) {
            sp_flush(st, ctx)
        } else {
            Seq::<PropV>::empty()
        },
        PropV::AnimationIterationCount(v, vp) => if sp_needs(st.iteration_counts, v, vp) {
            sp_flush(st, ctx)
        } else {
            Seq::<PropV>::empty()
        },
        PropV::AnimationDirection(v, vp) => if sp_needs(st.directions, v, vp) {
            sp_flush(st, ctx)
        } else {
            Seq::<PropV>::empty()
        },
        PropV::AnimationPlayState(v, vp) => if sp_needs(st.play_states, v, vp) {
            sp_flush(st, ctx)
        } else {
            Seq::<PropV>::empty()
        },
        PropV::AnimationDelay(v, vp) => if sp_needs(st.delays, v, vp) {
            sp_flush(st, ctx)
        } else {
            Seq::<PropV>::empty()
        },
        PropV::AnimationFillMode(v, vp) => if sp_needs(st.fill_modes, v, vp) {
            sp_flush(st, ctx)
        } else {
            Seq::<PropV>::empty()
        },
        PropV::AnimationComposition(_) => Seq::<PropV>::empty(),
        PropV::AnimationTimeline(_) => Seq::<PropV>::empty(),
        PropV::Animation(el, vp) => if sp_shorthand_needs(st, el, vp) {
            sp_flush(st, ctx)
        } else {
            Seq::<PropV>::empty()
        },
        PropV::Unparsed(u) => sp_flush(st, ctx) + seq![PropV::Unparsed(sp_substitute(u))],
    }
}

/// The state one consumed declaration leaves behind.
pub open spec fn sp_handle_state(st: HandlerV, p: PropV, ctx: HandlerContext) -> HandlerV {
    match p {
        PropV::AnimationName(v, vp) => {
            let st1 = if sp_needs(st.names, v, vp) {
                empty_state()
            } else {
                st
            };
            HandlerV { names: sp_record(st1.names, v, vp), has_any: true, ..st1 }
        },
        PropV::AnimationDuration(v, vp) => {
            let st1 = if sp_needs(st.durations, v, vp) {
                empty_state()
            } else {
                st
            };
            HandlerV { durations: sp_record(st1.durations, v, vp), has_any: true, ..st1 }
        },
        PropV::AnimationTimingFunction(v, vp) => {
            let st1 = if sp_needs(st.timing_functions, v, vp) {
                empty_state()
            } else {
                st
            };
            HandlerV {
                timing_functions: sp_record(st1.timing_functions, v, vp),
                has_any: true,
                ..st1
            }
        },
        PropV::AnimationIterationCount(v, vp) => {
            let st1 = if sp_needs(st.iteration_counts, v, vp) {
                empty_state()
            } else {
                st
            };
            HandlerV {
                iteration_counts: sp_record(st1.iteration_counts, v, vp),
                has_any: true,
                ..st1
            }
        },
        PropV::AnimationDirection(v, vp) => {
            let st1 = if sp_needs(st.directions, v, vp) {
                empty_state()
            } else {
                st
            };
            HandlerV { directions: sp_record(st1.directions, v, vp), has_any: true, ..st1 }
        },
        PropV::AnimationPlayState(v, vp) => {
            let st1 = if sp_needs(st.play_states, v, vp) {
                empty_state()
            } else {
                st
            };
            HandlerV { play_states: sp_record(st1.play_states, v, vp), has_any: true, ..st1 }
        },
        PropV::AnimationDelay(v, vp) => {
            let st1 = if sp_needs(st.delays, v, vp) {
                empty_state()
            } else {
                st
            };
            HandlerV { delays: sp_record(st1.delays, v, vp), has_any: true, ..st1 }
        },
        PropV::AnimationFillMode(v, vp) => {
            let st1 = if sp_needs(st.fill_modes, v, vp) {
                empty_state()
            } else {
                st
            };
            HandlerV { fill_modes: sp_record(st1.fill_modes, v, vp), has_any: true, ..st1 }
        },
        PropV::AnimationComposition(_) => st,
        PropV::AnimationTimeline(v) => HandlerV { timelines: Some(v), has_any: true, ..st },
        PropV::Animation(el, vp) => {
            let st1 = if sp_shorthand_needs(st, el, vp) {
                empty_state()
            } else {
                st
            };
            HandlerV {
                names: sp_record(st1.names, names_of(el), vp),
                durations: sp_record(st1.durations, durations_of(el), vp),
                timing_functions: sp_record(st1.timing_functions, timing_functions_of(el), vp),
                iteration_counts: sp_record(st1.iteration_counts, iteration_counts_of(el), vp),
                directions: sp_record(st1.directions, directions_of(el), vp),
                play_states: sp_record(st1.play_states, play_states_of(el), vp),
                delays: sp_record(st1.delays, delays_of(el), vp),
                fill_modes: sp_record(st1.fill_modes, fill_modes_of(el), vp),
                timelines: Some(timelines_of(el)),
                has_any: true,
            }
        },
        PropV::Unparsed(_) => empty_state(),
    }
}

/// A copy of a list of values without interior views.
fn clone_copy_vec<T: Copy>(v: &Vec<T>) -> (r: Vec<T>)
    ensures
        r@ == v@,
{
    let mut out: Vec<T> = Vec::new();
    let mut i: usize = 0;
    while i < v.len()
        invariant
            i <= v@.len(),
            out@ == v@.take(i as int),
        decreases v@.len() - i,
    {
        out.push(v[i]);
        assert(out@ =~= v@.take(i as int + 1));
        i = i + 1;
    }
    assert(v@.take(v@.len() as int) =~= v@);
    out
}

/// A copy of a list of names.
fn clone_names(v: &Vec<AnimationName>) -> (r: Vec<AnimationName>)
    ensures
        r@ == v@,
{
    let mut out: Vec<AnimationName> = Vec::new();
    let mut i: usize = 0;
    while i < v.len()
        invariant
            i <= v@.len(),
            out@ == v@.take(i as int),
        decreases v@.len() - i,
    {
        out.push(v[i].clone_val());
        assert(out@ =~= v@.take(i as int + 1));
        i = i + 1;
    }
    assert(v@.take(v@.len() as int) =~= v@);
    out
}

/// A copy of a list of timelines.
fn clone_timelines(v: &Vec<AnimationTimeline>) -> (r: Vec<AnimationTimeline>)
    ensures
        r@ == v@,
{
    let mut out: Vec<AnimationTimeline> = Vec::new();
    let mut i: usize = 0;
    while i < v.len()
        invariant
            i <= v@.len(),
            out@ == v@.take(i as int),
        decreases v@.len() - i,
    {
        out.push(v[i].clone_val());
        assert(out@ =~= v@.take(i as int + 1));
        i = i + 1;
    }
    assert(v@.take(v@.len() as int) =~= v@);
    out
}

/// Equality of two names, by value.
fn name_eq(a: &AnimationName, b: &AnimationName) -> (r: bool)
    ensures
        r == (a@ == b@),
{
    match (a, b) {
        (AnimationName::NoneKw, AnimationName::NoneKw) => true,
        (AnimationName::Ident(x), AnimationName::Ident(y)) => crate::text::str_eq(
            x.as_str(),
            y.as_str(),
        ),
        (AnimationName::String(x), AnimationName::String(y)) => crate::text::str_eq(
            x.as_str(),
            y.as_str(),
        ),
        _ => false,
    }
}

/// Equality of two name lists, by value.
fn vec_names_eq(a: &Vec<AnimationName>, b: &Vec<AnimationName>) -> (r: bool)
    ensures
        r == (names_view(a@) == names_view(b@)),
{
    if a.len() != b.len() {
        return false;
    }
    let mut i: usize = 0;
    while i < a.len()
        invariant
            i <= a@.len(),
            a@.len() == b@.len(),
            forall|j: int| 0 <= j < i ==> names_view(a@)[j] == names_view(b@)[j],
        decreases a@.len() - i,
    {
        if !name_eq(&a[i], &b[i]) {
            assert(names_view(a@)[i as int] != names_view(b@)[i as int]);
            return false;
        }
        i = i + 1;
    }
    assert(names_view(a@) =~= names_view(b@));
    true
}

/// Equality of two duration or delay lists.
fn times_vec_eq(a: &Vec<Time>, b: &Vec<Time>) -> (r: bool)
    ensures
        r == (a@ == b@),
{
    if a.len() != b.len() {
        return false;
    }
    let mut i: usize = 0;
    while i < a.len()
        invariant
            i <= a@.len(),
            a@.len() == b@.len(),
            forall|j: int| 0 <= j < i ==> a@[j] == b@[j],
        decreases a@.len() - i,
    {
        if !(a[i] == b[i]) {
            return false;
        }
        i = i + 1;
    }
    assert(a@ =~= b@);
    true
}

/// Equality of two easing-function lists.
fn easings_vec_eq(a: &Vec<EasingFunction>, b: &Vec<EasingFunction>) -> (r: bool)
    ensures
        r == (a@ == b@),
{
    if a.len() != b.len() {
        return false;
    }
    let mut i: usize = 0;
    while i < a.len()
        invariant
            i <= a@.len(),
            a@.len() == b@.len(),
            forall|j: int| 0 <= j < i ==> a@[j] == b@[j],
        decreases a@.len() - i,
    {
        if !(a[i] == b[i]) {
            return false;
        }
        i = i + 1;
    }
    assert(a@ =~= b@);
    true
}

/// Equality of two iteration-count lists.
fn iters_vec_eq(a: &Vec<AnimationIterationCount>, b: &Vec<AnimationIterationCount>) -> (r: bool)
    ensures
        r == (a@ == b@),
{
    if a.len() != b.len() {
        return false;
    }
    let mut i: usize = 0;
    while i < a.len()
        invariant
            i <= a@.len(),
            a@.len() == b@.len(),
            forall|j: int| 0 <= j < i ==> a@[j] == b@[j],
        decreases a@.len() - i,
    {
        if !(a[i] == b[i]) {
            return false;
        }
        i = i + 1;
    }
    assert(a@ =~= b@);
    true
}

/// Equality of two direction lists.
fn dirs_vec_eq(a: &Vec<AnimationDirection>, b: &Vec<AnimationDirection>) -> (r: bool)
    ensures
        r == (a@ == b@),
{
    if a.len() != b.len() {
        return false;
    }
    let mut i: usize = 0;
    while i < a.len()
        invariant
            i <= a@.len(),
            a@.len() == b@.len(),
            forall|j: int| 0 <= j < i ==> a@[j] == b@[j],
        decreases a@.len() - i,
    {
        if !(a[i] == b[i]) {
            return false;
        }
        i = i + 1;
    }
    assert(a@ =~= b@);
    true
}

/// Equality of two play-state lists.
fn plays_vec_eq(a: &Vec<AnimationPlayState>, b: &Vec<AnimationPlayState>) -> (r: bool)
    ensures
        r == (a@ == b@),
{
    if a.len() != b.len() {
        return false;
    }
    let mut i: usize = 0;
    while i < a.len()
        invariant
            i <= a@.len(),
            a@.len() == b@.len(),
            forall|j: int| 0 <= j < i ==> a@[j] == b@[j],
        decreases a@.len() - i,
    {
        if !(a[i] == b[i]) {
            return false;
        }
        i = i + 1;
    }
    assert(a@ =~= b@);
    true
}

/// Equality of two fill-mode lists.
fn fills_vec_eq(a: &Vec<AnimationFillMode>, b: &Vec<AnimationFillMode>) -> (r: bool)
    ensures
        r == (a@ == b@),
{
    if a.len() != b.len() {
        return false;
    }
    let mut i: usize = 0;
    while i < a.len()
        invariant
            i <= a@.len(),
            a@.len() == b@.len(),
            forall|j: int| 0 <= j < i ==> a@[j] == b@[j],
        decreases a@.len() - i,
    {
        if !(a[i] == b[i]) {
            return false;
        }
        i = i + 1;
    }
    assert(a@ =~= b@);
    true
}

/// Whether any member of a held timeline list is not the default.
fn any_non_auto(tl: &Vec<AnimationTimeline>) -> (r: bool)
    ensures
        r == exists|k: int|
            0 <= k < timelines_view(tl@).len() && timelines_view(tl@)[k] != TimelineV::Auto,
{
    let mut i: usize = 0;
    while i < tl.len()
        invariant
            i <= tl@.len(),
            forall|j: int| 0 <= j < i ==> timelines_view(tl@)[j] == TimelineV::Auto,
        decreases tl@.len() - i,
    {
        if !tl[i].is_auto() {
            assert(timelines_view(tl@)[i as int] != TimelineV::Auto);
            return true;
        }
        i = i + 1;
    }
    false
}

/// A held category with the collapsed prefixes removed, as executable
/// code.
fn reduce_slot<T>(slot: Option<(Vec<T>, VendorPrefix)>, inter: VendorPrefix) -> (r: Option<
    (Vec<T>, VendorPrefix),
>)
    ensures
        r == (match slot {
            Some((l, vp)) => Some((l, vp.spec_remove(inter))),
            None => None::<(Vec<T>, VendorPrefix)>,
        }),
{
    match slot {
        Some((l, vp)) => Some((l, vp.remove(inter))),
        None => None,
    }
}

/// Emits the surviving animation-name longhand.
fn emit_names(slot: Option<(Vec<AnimationName>, VendorPrefix)>, dest: &mut Vec<Property>)
    ensures
        props_view(final(dest)@) == props_view(old(dest)@) + sp_left_names(names_slot_view(slot)),
{
    let ghost b = props_view(dest@);
    match slot {
        Some((l, vp)) => {
            if !vp.is_empty() {
                dest.push(Property::AnimationName(l, vp));
            }
        },
        None => {},
    }
    assert(props_view(dest@) =~= b + sp_left_names(names_slot_view(slot)));
}

/// Emits the surviving animation-duration longhand.
fn emit_durations(slot: Option<(Vec<Time>, VendorPrefix)>, dest: &mut Vec<Property>)
    ensures
        props_view(final(dest)@) == props_view(old(dest)@) + sp_left_durations(
            copy_slot_view(slot),
        ),
{
    let ghost b = props_view(dest@);
    match slot {
        Some((l, vp)) => {
            if !vp.is_empty() {
                dest.push(Property::AnimationDuration(l, vp));
            }
        },
        None => {},
    }
    assert(props_view(dest@) =~= b + sp_left_durations(copy_slot_view(slot)));
}

/// Emits the surviving animation-timing-function longhand.
fn emit_timing_functions(slot: Option<(Vec<EasingFunction>, VendorPrefix)>, dest: &mut Vec<Property>)
    ensures
        props_view(final(dest)@) == props_view(old(dest)@) + sp_left_timing_functions(
            copy_slot_view(slot),
        ),
{
    let ghost b = props_view(dest@);
    match slot {
        Some((l, vp)) => {
            if !vp.is_empty() {
                dest.push(Property::AnimationTimingFunction(l, vp));
            }
        },
        None => {},
    }
    assert(props_view(dest@) =~= b + sp_left_timing_functions(copy_slot_view(slot)));
}

/// Emits the surviving animation-iteration-count longhand.
fn emit_iteration_counts(
    slot: Option<(Vec<AnimationIterationCount>, VendorPrefix)>,
    dest: &mut Vec<Property>,
)
    ensures
        props_view(final(dest)@) == props_view(old(dest)@) + sp_left_iteration_counts(
            copy_slot_view(slot),
        ),
{
    let ghost b = props_view(dest@);
    match slot {
        Some((l, vp)) => {
            if !vp.is_empty() {
                dest.push(Property::AnimationIterationCount(l, vp));
            }
        },
        None => {},
    }
    assert(props_view(dest@) =~= b + sp_left_iteration_counts(copy_slot_view(slot)));
}

/// Emits the surviving animation-direction longhand.
fn emit_directions(slot: Option<(Vec<AnimationDirection>, VendorPrefix)>, dest: &mut Vec<Property>)
    ensures
        props_view(final(dest)@) == props_view(old(dest)@) + sp_left_directions(
            copy_slot_view(slot),
        ),
{
    let ghost b = props_view(dest@);
    match slot {
        Some((l, vp)) => {
            if !vp.is_empty() {
                dest.push(Property::AnimationDirection(l, vp));
            }
        },
        None => {},
    }
    assert(props_view(dest@) =~= b + sp_left_directions(copy_slot_view(slot)));
}

/// Emits the surviving animation-play-state longhand.
fn emit_play_states(slot: Option<(Vec<AnimationPlayState>, VendorPrefix)>, dest: &mut Vec<Property>)
    ensures
        props_view(final(dest)@) == props_view(old(dest)@) + sp_left_play_states(
            copy_slot_view(slot),
        ),
{
    let ghost b = props_view(dest@);
    match slot {
        Some((l, vp)) => {
            if !vp.is_empty() {
                dest.push(Property::AnimationPlayState(l, vp));
            }
        },
        None => {},
    }
    assert(props_view(dest@) =~= b + sp_left_play_states(copy_slot_view(slot)));
}

/// Emits the surviving animation-delay longhand.
fn emit_delays(slot: Option<(Vec<Time>, VendorPrefix)>, dest: &mut Vec<Property>)
    ensures
        props_view(final(dest)@) == props_view(old(dest)@) + sp_left_delays(copy_slot_view(slot)),
{
    let ghost b = props_view(dest@);
    match slot {
        Some((l, vp)) => {
            if !vp.is_empty() {
                dest.push(Property::AnimationDelay(l, vp));
            }
        },
        None => {},
    }
    assert(props_view(dest@) =~= b + sp_left_delays(copy_slot_view(slot)));
}

/// Emits the surviving animation-fill-mode longhand.
fn emit_fill_modes(slot: Option<(Vec<AnimationFillMode>, VendorPrefix)>, dest: &mut Vec<Property>)
    ensures
        props_view(final(dest)@) == props_view(old(dest)@) + sp_left_fill_modes(
            copy_slot_view(slot),
        ),
{
    let ghost b = props_view(dest@);
    match slot {
        Some((l, vp)) => {
            if !vp.is_empty() {
                dest.push(Property::AnimationFillMode(l, vp));
            }
        },
        None => {},
    }
    assert(props_view(dest@) =~= b + sp_left_fill_modes(copy_slot_view(slot)));
}

/// Emits the surviving timeline declaration.
fn emit_timelines(slot: Option<Vec<AnimationTimeline>>, dest: &mut Vec<Property>)
    ensures
        props_view(final(dest)@) == props_view(old(dest)@) + sp_left_timelines(
            timelines_slot_view(slot),
        ),
{
    let ghost b = props_view(dest@);
    match slot {
        Some(l) => {
            dest.push(Property::AnimationTimeline(l));
        },
        None => {},
    }
    assert(props_view(dest@) =~= b + sp_left_timelines(timelines_slot_view(slot)));
}

/// The name of each entry of a shorthand.
fn decompose_names(val: &Vec<Animation>) -> (r: Vec<AnimationName>)
    ensures
        names_view(r@) == names_of(entries_view(val@)),
{
    let mut out: Vec<AnimationName> = Vec::new();
    let mut k: usize = 0;
    while k < val.len()
        invariant
            k <= val@.len(),
            names_view(out@) == names_of(entries_view(val@)).take(k as int),
        decreases val@.len() - k,
    {
        let ghost b = out@;
        let nm = val[k].name.clone_val();
        out.push(nm);
        proof {
            let target = names_of(entries_view(val@));
            assert(names_view(out@) =~= names_view(b).push(nm@));
            assert(target.take(k as int + 1) =~= target.take(k as int).push(target[k as int]));
            assert(names_view(out@) =~= target.take(k as int + 1));
        }
        k = k + 1;
    }
    assert(names_of(entries_view(val@)).take(val@.len() as int) =~= names_of(entries_view(val@)));
    out
}

/// The duration of each entry of a shorthand.
fn decompose_durations(val: &Vec<Animation>) -> (r: Vec<Time>)
    ensures
        r@ == durations_of(entries_view(val@)),
{
    let mut out: Vec<Time> = Vec::new();
    let mut k: usize = 0;
    while k < val.len()
        invariant
            k <= val@.len(),
            out@ == durations_of(entries_view(val@)).take(k as int),
        decreases val@.len() - k,
    {
        out.push(val[k].duration);
        assert(out@ =~= durations_of(entries_view(val@)).take(k as int + 1));
        k = k + 1;
    }
    assert(durations_of(entries_view(val@)).take(val@.len() as int) =~= durations_of(entries_view(val@)));
    out
}

/// The timing function of each entry of a shorthand.
fn decompose_timing_functions(val: &Vec<Animation>) -> (r: Vec<EasingFunction>)
    ensures
        r@ == timing_functions_of(entries_view(val@)),
{
    let mut out: Vec<EasingFunction> = Vec::new();
    let mut k: usize = 0;
    while k < val.len()
        invariant
            k <= val@.len(),
            out@ == timing_functions_of(entries_view(val@)).take(k as int),
        decreases val@.len() - k,
    {
        out.push(val[k].timing_function);
        assert(out@ =~= timing_functions_of(entries_view(val@)).take(k as int + 1));
        k = k + 1;
    }
    assert(timing_functions_of(entries_view(val@)).take(val@.len() as int) =~= timing_functions_of(entries_view(val@)));
    out
}

/// The iteration count of each entry of a shorthand.
fn decompose_iteration_counts(val: &Vec<Animation>) -> (r: Vec<AnimationIterationCount>)
    ensures
        r@ == iteration_counts_of(entries_view(val@)),
{
    let mut out: Vec<AnimationIterationCount> = Vec::new();
    let mut k: usize = 0;
    while k < val.len()
        invariant
            k <= val@.len(),
            out@ == iteration_counts_of(entries_view(val@)).take(k as int),
        decreases val@.len() - k,
    {
        out.push(val[k].iteration_count);
        assert(out@ =~= iteration_counts_of(entries_view(val@)).take(k as int + 1));
        k = k + 1;
    }
    assert(iteration_counts_of(entries_view(val@)).take(val@.len() as int) =~= iteration_counts_of(entries_view(val@)));
    out
}

/// The direction of each entry of a shorthand.
fn decompose_directions(val: &Vec<Animation>) -> (r: Vec<AnimationDirection>)
    ensures
        r@ == directions_of(entries_view(val@)),
{
    let mut out: Vec<AnimationDirection> = Vec::new();
    let mut k: usize = 0;
    while k < val.len()
        invariant
            k <= val@.len(),
            out@ == directions_of(entries_view(val@)).take(k as int),
        decreases val@.len() - k,
    {
        out.push(val[k].direction);
        assert(out@ =~= directions_of(entries_view(val@)).take(k as int + 1));
        k = k + 1;
    }
    assert(directions_of(entries_view(val@)).take(val@.len() as int) =~= directions_of(entries_view(val@)));
    out
}

/// The play state of each entry of a shorthand.
fn decompose_play_states(val: &Vec<Animation>) -> (r: Vec<AnimationPlayState>)
    ensures
        r@ == play_states_of(entries_view(val@)),
{
    let mut out: Vec<AnimationPlayState> = Vec::new();
    let mut k: usize = 0;
    while k < val.len()
        invariant
            k <= val@.len(),
            out@ == play_states_of(entries_view(val@)).take(k as int),
        decreases val@.len() - k,
    {
        out.push(val[k].play_state);
        assert(out@ =~= play_states_of(entries_view(val@)).take(k as int + 1));
        k = k + 1;
    }
    assert(play_states_of(entries_view(val@)).take(val@.len() as int) =~= play_states_of(entries_view(val@)));
    out
}

/// The delay of each entry of a shorthand.
fn decompose_delays(val: &Vec<Animation>) -> (r: Vec<Time>)
    ensures
        r@ == delays_of(entries_view(val@)),
{
    let mut out: Vec<Time> = Vec::new();
    let mut k: usize = 0;
    while k < val.len()
        invariant
            k <= val@.len(),
            out@ == delays_of(entries_view(val@)).take(k as int),
        decreases val@.len() - k,
    {
        out.push(val[k].delay);
        assert(out@ =~= delays_of(entries_view(val@)).take(k as int + 1));
        k = k + 1;
    }
    assert(delays_of(entries_view(val@)).take(val@.len() as int) =~= delays_of(entries_view(val@)));
    out
}

/// The fill mode of each entry of a shorthand.
fn decompose_fill_modes(val: &Vec<Animation>) -> (r: Vec<AnimationFillMode>)
    ensures
        r@ == fill_modes_of(entries_view(val@)),
{
    let mut out: Vec<AnimationFillMode> = Vec::new();
    let mut k: usize = 0;
    while k < val.len()
        invariant
            k <= val@.len(),
            out@ == fill_modes_of(entries_view(val@)).take(k as int),
        decreases val@.len() - k,
    {
        out.push(val[k].fill_mode);
        assert(out@ =~= fill_modes_of(entries_view(val@)).take(k as int + 1));
        k = k + 1;
    }
    assert(fill_modes_of(entries_view(val@)).take(val@.len() as int) =~= fill_modes_of(entries_view(val@)));
    out
}

/// The timeline of each entry of a shorthand.
fn decompose_timelines(val: &Vec<Animation>) -> (r: Vec<AnimationTimeline>)
    ensures
        timelines_view(r@) == timelines_of(entries_view(val@)),
{
    let mut out: Vec<AnimationTimeline> = Vec::new();
    let mut k: usize = 0;
    while k < val.len()
        invariant
            k <= val@.len(),
            timelines_view(out@) == timelines_of(entries_view(val@)).take(k as int),
        decreases val@.len() - k,
    {
        let ghost b = out@;
        let tl = val[k].timeline.clone_val();
        out.push(tl);
        proof {
            let target = timelines_of(entries_view(val@));
            assert(timelines_view(out@) =~= timelines_view(b).push(tl@));
            assert(target.take(k as int + 1) =~= target.take(k as int).push(target[k as int]));
            assert(timelines_view(out@) =~= target.take(k as int + 1));
        }
        k = k + 1;
    }
    assert(timelines_of(entries_view(val@)).take(val@.len() as int) =~= timelines_of(
        entries_view(val@),
    ));
    out
}

/// A copy of a raw token.
fn clone_token(t: &Token) -> (r: Token)
    ensures
        r == *t,
{
    match t {
        Token::Ident(x) => Token::Ident(x.clone()),
        Token::QuotedStr(x) => Token::QuotedStr(x.clone()),
        Token::Number(n) => Token::Number(*n),
        Token::Time(tm) => Token::Time(*tm),
        Token::Percentage(n) => Token::Percentage(*n),
        Token::Length(n) => Token::Length(*n),
        Token::Function(x) => Token::Function(x.clone()),
        Token::CloseParen => Token::CloseParen,
        Token::Comma => Token::Comma,
    }
}

/// The substitution applied to one unparsed token, as executable code.
fn subst_one(t: &TokenOrValue) -> (r: TokenOrValue)
    ensures
        r@ == sp_subst_tok(t@),
{
    match t {
        TokenOrValue::Token(Token::Ident(id)) => {
            if AnimationDirection::parse_string(id.as_str()).is_none()
                && AnimationPlayState::parse_string(id.as_str()).is_none()
                && AnimationFillMode::parse_string(id.as_str()).is_none()
                && !EasingFunction::is_ident(id.as_str()) && !crate::text::str_eq(
                id.as_str(),
                "infinite",
            ) && !crate::text::str_eq(id.as_str(), "auto") {
                TokenOrValue::AnimationName(AnimationName::Ident(id.clone()))
            } else {
                TokenOrValue::Token(Token::Ident(id.clone()))
            }
        },
        TokenOrValue::Token(Token::QuotedStr(q)) => TokenOrValue::AnimationName(
            AnimationName::String(q.clone()),
        ),
        TokenOrValue::Token(other) => TokenOrValue::Token(clone_token(other)),
        TokenOrValue::AnimationName(n) => TokenOrValue::AnimationName(n.clone_val()),
    }
}

/// The substitution applied to a whole unparsed declaration, as
/// executable code.
fn substitute_unparsed(u: &UnparsedProperty) -> (r: UnparsedProperty)
    ensures
        r@ == sp_substitute(u@),
{
    let mut value: Vec<TokenOrValue> = Vec::new();
    if matches!(u.property_id, PropertyId::Animation(_)) {
        let mut k: usize = 0;
        while k < u.value.len()
            invariant
                k <= u.value@.len(),
                tokens_or_values_view(value@) == tokens_or_values_view(u.value@).map_values(
                    |t: TokOrValV| sp_subst_tok(t),
                ).take(k as int),
            decreases u.value@.len() - k,
        {
            let ghost b = value@;
            let sv = subst_one(&u.value[k]);
            value.push(sv);
            proof {
                let target = tokens_or_values_view(u.value@).map_values(
                    |t: TokOrValV| sp_subst_tok(t),
                );
                assert(tokens_or_values_view(value@) =~= tokens_or_values_view(b).push(sv@));
                assert(target.take(k as int + 1) =~= target.take(k as int).push(
                    target[k as int],
                ));
                assert(tokens_or_values_view(value@) =~= target.take(k as int + 1));
            }
            k = k + 1;
        }
        proof {
            let full = tokens_or_values_view(u.value@).map_values(|t: TokOrValV| sp_subst_tok(t));
            assert(full.take(u.value@.len() as int) =~= full);
        }
    } else {
        let mut k: usize = 0;
        while k < u.value.len()
            invariant
                k <= u.value@.len(),
                tokens_or_values_view(value@) == tokens_or_values_view(u.value@).take(k as int),
            decreases u.value@.len() - k,
        {
            let ghost b = value@;
            let cv = match &u.value[k] {
                TokenOrValue::Token(t) => TokenOrValue::Token(clone_token(t)),
                TokenOrValue::AnimationName(n) => TokenOrValue::AnimationName(n.clone_val()),
            };
            value.push(cv);
            proof {
                let target = tokens_or_values_view(u.value@);
                assert(tokens_or_values_view(value@) =~= tokens_or_values_view(b).push(cv@));
                assert(target.take(k as int + 1) =~= target.take(k as int).push(
                    target[k as int],
                ));
                assert(tokens_or_values_view(value@) =~= target.take(k as int + 1));
            }
            k = k + 1;
        }
        assert(tokens_or_values_view(u.value@).take(u.value@.len() as int) =~= tokens_or_values_view(
            u.value@,
        ));
    }
    UnparsedProperty { property_id: u.property_id, value }
}

impl AnimationHandler {
    /// A fresh, empty reconciliation state for one declaration block.
    pub fn new() -> (r: AnimationHandler)
        ensures
            r@ == empty_state(),
    {
        AnimationHandler {
            names: None,
            durations: None,
            timing_functions: None,
            iteration_counts: None,
            directions: None,
            play_states: None,
            delays: None,
            fill_modes: None,
            timelines: None,
            has_any: false,
        }
    }

    /// Emits everything currently held, in the fixed category order, after
    /// attempting the shorthand collapse, and clears the state.
    #[verifier::rlimit(100)]
    pub fn flush(&mut self, dest: &mut Vec<Property>, ctx: &HandlerContext)
        requires
            old(self)@.wf(),
        ensures
            final(self)@ == empty_state(),
            props_view(final(dest)@) == props_view(old(dest)@) + sp_flush(old(self)@, *ctx),
    {
        let ghost st = old(self)@;
        if !self.has_any {
            proof {
                assert(props_view(dest@) =~= props_view(dest@) + sp_flush(st, *ctx));
            }
            return ;
        }
        self.has_any = false;
        let names = self.names.take();
        let durations = self.durations.take();
        let timing_functions = self.timing_functions.take();
        let iteration_counts = self.iteration_counts.take();
        let directions = self.directions.take();
        let play_states = self.play_states.take();
        let delays = self.delays.take();
        let fill_modes = self.fill_modes.take();
        let mut timelines = self.timelines.take();
        let ghost g0 = props_view(dest@);

        let mut can = false;
        let mut ivp = VendorPrefix::empty();
        if names.is_some() && durations.is_some() && timing_functions.is_some()
            && iteration_counts.is_some() && directions.is_some() && play_states.is_some()
            && delays.is_some() && fill_modes.is_some() {
            let nm = names.as_ref().unwrap();
            let du = durations.as_ref().unwrap();
            let tf = timing_functions.as_ref().unwrap();
            let ic = iteration_counts.as_ref().unwrap();
            let di = directions.as_ref().unwrap();
            let ps = play_states.as_ref().unwrap();
            let de = delays.as_ref().unwrap();
            let fm = fill_modes.as_ref().unwrap();
            let len = nm.0.len();
            let v = nm.1.intersect(du.1).intersect(tf.1).intersect(ic.1).intersect(
                di.1,
            ).intersect(ps.1).intersect(de.1).intersect(fm.1);
            let tl_ok = match &timelines {
                Some(tl) => tl.len() == len,
                None => true,
            };
            if !v.is_empty() && du.0.len() == len && tf.0.len() == len && ic.0.len() == len
                && di.0.len() == len && ps.0.len() == len && de.0.len() == len && fm.0.len()
                == len && tl_ok {
                can = true;
                ivp = v;
            }
        }
        proof {
            assert(can == sp_can_collapse(st));
            if can {
                assert(ivp == sp_inter(st));
            }
        }
        if can {
            let nm = names.as_ref().unwrap();
            let du = durations.as_ref().unwrap();
            let tf = timing_functions.as_ref().unwrap();
            let ic = iteration_counts.as_ref().unwrap();
            let di = directions.as_ref().unwrap();
            let ps = play_states.as_ref().unwrap();
            let de = delays.as_ref().unwrap();
            let fm = fill_modes.as_ref().unwrap();
            let len = nm.0.len();
            let any_na = match &timelines {
                Some(tl) => any_non_auto(tl),
                None => false,
            };
            let sep = any_na && (!(ivp.bits == 1) || !ctx.timeline_shorthand_supported);
            proof {
                assert(sep == sp_separate_timeline(st, *ctx));
            }
            let mut entries: Vec<Animation> = Vec::new();
            let mut k: usize = 0;
            while k < len
                invariant
                    k <= len,
                    len == st.names->Some_0.0.len(),
                    sp_can_collapse(st),
                    sep == sp_separate_timeline(st, *ctx),
                    names is Some && names_slot_view(names) == st.names,
                    durations is Some && copy_slot_view(durations) == st.durations,
                    timing_functions is Some && copy_slot_view(timing_functions)
                        == st.timing_functions,
                    iteration_counts is Some && copy_slot_view(iteration_counts)
                        == st.iteration_counts,
                    directions is Some && copy_slot_view(directions) == st.directions,
                    play_states is Some && copy_slot_view(play_states) == st.play_states,
                    delays is Some && copy_slot_view(delays) == st.delays,
                    fill_modes is Some && copy_slot_view(fill_modes) == st.fill_modes,
                    timelines_slot_view(timelines) == st.timelines,
                    entries_view(entries@) == sp_entries(st, *ctx).take(k as int),
                decreases len - k,
            {
                let tlk: AnimationTimeline = if sep {
                    AnimationTimeline::Auto
                } else {
                    match &timelines {
                        Some(tl) => tl[k].clone_val(),
                        None => AnimationTimeline::Auto,
                    }
                };
                let nm2 = names.as_ref().unwrap();
                let du2 = durations.as_ref().unwrap();
                let tf2 = timing_functions.as_ref().unwrap();
                let ic2 = iteration_counts.as_ref().unwrap();
                let di2 = directions.as_ref().unwrap();
                let ps2 = play_states.as_ref().unwrap();
                let de2 = delays.as_ref().unwrap();
                let fm2 = fill_modes.as_ref().unwrap();
                let entry = Animation {
                    name: nm2.0[k].clone_val(),
                    duration: du2.0[k],
                    timing_function: tf2.0[k],
                    iteration_count: ic2.0[k],
                    direction: di2.0[k],
                    play_state: ps2.0[k],
                    delay: de2.0[k],
                    fill_mode: fm2.0[k],
                    timeline: tlk,
                };
                proof {
                    assert(entry@ == sp_entries(st, *ctx)[k as int]);
                }
                let ghost b = entries@;
                let ghost ev = entry@;
                entries.push(entry);
                proof {
                    let target = sp_entries(st, *ctx);
                    assert(entries_view(entries@) =~= entries_view(b).push(ev));
                    assert(target.take(k as int + 1) =~= target.take(k as int).push(
                        target[k as int],
                    ));
                    assert(entries_view(entries@) =~= target.take(k as int + 1));
                }
                k = k + 1;
            }
            proof {
                assert(sp_entries(st, *ctx).take(len as int) =~= sp_entries(st, *ctx));
            }
            dest.push(Property::Animation(entries, ivp));
            proof {
                assert(props_view(dest@) =~= g0.push(
                    PropV::Animation(sp_entries(st, *ctx), sp_inter(st)),
                ));
            }
            if sep {
                let tl_out = match &timelines {
                    Some(tl) => clone_timelines(tl),
                    None => Vec::new(),
                };
                let ghost gb = props_view(dest@);
                dest.push(Property::AnimationTimeline(tl_out));
                proof {
                    assert(props_view(dest@) =~= gb.push(
                        PropV::AnimationTimeline(st.timelines->Some_0),
                    ));
                }
            }
        }
        proof {
            assert(props_view(dest@) =~= g0 + sp_shorthand_part(st, *ctx));
        }
        let names2 = if can {
            reduce_slot(names, ivp)
        } else {
            names
        };
        let durations2 = if can {
            reduce_slot(durations, ivp)
        } else {
            durations
        };
        let timing_functions2 = if can {
            reduce_slot(timing_functions, ivp)
        } else {
            timing_functions
        };
        let iteration_counts2 = if can {
            reduce_slot(iteration_counts, ivp)
        } else {
            iteration_counts
        };
        let directions2 = if can {
            reduce_slot(directions, ivp)
        } else {
            directions
        };
        let play_states2 = if can {
            reduce_slot(play_states, ivp)
        } else {
            play_states
        };
        let delays2 = if can {
            reduce_slot(delays, ivp)
        } else {
            delays
        };
        let fill_modes2 = if can {
            reduce_slot(fill_modes, ivp)
        } else {
            fill_modes
        };
        if can {
            timelines = None;
        }
        let ghost st2 = sp_after_collapse(st, *ctx);
        proof {
            assert(names_slot_view(names2) == st2.names);
            assert(copy_slot_view(durations2) == st2.durations);
            assert(copy_slot_view(timing_functions2) == st2.timing_functions);
            assert(copy_slot_view(iteration_counts2) == st2.iteration_counts);
            assert(copy_slot_view(directions2) == st2.directions);
            assert(copy_slot_view(play_states2) == st2.play_states);
            assert(copy_slot_view(delays2) == st2.delays);
            assert(copy_slot_view(fill_modes2) == st2.fill_modes);
            assert(timelines_slot_view(timelines) == st2.timelines);
        }
        let ghost h0 = props_view(dest@);
        emit_names(names2, dest);
        let ghost h1 = props_view(dest@);
        emit_durations(durations2, dest);
        let ghost h2 = props_view(dest@);
        emit_timing_functions(timing_functions2, dest);
        let ghost h3 = props_view(dest@);
        emit_iteration_counts(iteration_counts2, dest);
        let ghost h4 = props_view(dest@);
        emit_directions(directions2, dest);
        let ghost h5 = props_view(dest@);
        emit_play_states(play_states2, dest);
        let ghost h6 = props_view(dest@);
        emit_delays(delays2, dest);
        let ghost h7 = props_view(dest@);
        emit_fill_modes(fill_modes2, dest);
        let ghost h8 = props_view(dest@);
        emit_timelines(timelines, dest);
        proof {
            let q1 = sp_left_names(st2.names);
            let q2 = q1 + sp_left_durations(st2.durations);
            let q3 = q2 + sp_left_timing_functions(st2.timing_functions);
            let q4 = q3 + sp_left_iteration_counts(st2.iteration_counts);
            let q5 = q4 + sp_left_directions(st2.directions);
            let q6 = q5 + sp_left_play_states(st2.play_states);
            let q7 = q6 + sp_left_delays(st2.delays);
            let q8 = q7 + sp_left_fill_modes(st2.fill_modes);
            let q9 = q8 + sp_left_timelines(st2.timelines);
            lemma_concat_associative(h0, q1, sp_left_durations(st2.durations));
            lemma_concat_associative(h0, q2, sp_left_timing_functions(st2.timing_functions));
            lemma_concat_associative(h0, q3, sp_left_iteration_counts(st2.iteration_counts));
            lemma_concat_associative(h0, q4, sp_left_directions(st2.directions));
            lemma_concat_associative(h0, q5, sp_left_play_states(st2.play_states));
            lemma_concat_associative(h0, q6, sp_left_delays(st2.delays));
            lemma_concat_associative(h0, q7, sp_left_fill_modes(st2.fill_modes));
            lemma_concat_associative(h0, q8, sp_left_timelines(st2.timelines));
            assert(props_view(dest@) == h0 + sp_leftovers(st2));
            lemma_concat_associative(g0, sp_shorthand_part(st, *ctx), sp_leftovers(st2));
            assert(props_view(dest@) == g0 + sp_flush(st, *ctx));
        }
    }

    /// Consumes one declaration of the animation family: records it,
    /// flushing first when a disagreeing value arrives under prefixes not
    /// yet held; forwards substituted unparsed values after an
    /// unconditional flush.  Returns whether the declaration was consumed.
    pub fn handle_property(
        &mut self,
        property: &Property,
        dest: &mut Vec<Property>,
        ctx: &HandlerContext,
    ) -> (r: bool)
        requires
            old(self)@.wf(),
        ensures
            r == sp_handled(property@),
            final(self)@.wf(),
            r ==> final(self)@ == sp_handle_state(old(self)@, property@, *ctx),
            r ==> props_view(final(dest)@) == props_view(old(dest)@) + sp_handle_out(
                old(self)@,
                property@,
                *ctx,
            ),
            !r ==> final(self)@ == old(self)@ && final(dest)@ == old(dest)@,
    {
        let ghost st0 = old(self)@;
        match property {
            Property::AnimationName(val, vp) => {
                let mut needs = false;
                match &self.names {
                    Some((cur, prefixes)) => {
                        if !vec_names_eq(cur, val) && !prefixes.contains(*vp) {
                            needs = true;
                        }
                    },
                    None => {},
                }
                if needs {
                    self.flush(dest, ctx);
                }
                let cloned = clone_names(val);
                match self.names.take() {
                    Some((_discard, prefixes)) => {
                        self.names = Some((cloned, prefixes.union(*vp)));
                    },
                    None => {
                        self.names = Some((cloned, *vp));
                        self.has_any = true;
                    },
                }
                proof {
                    assert(props_view(dest@) + Seq::<PropV>::empty() =~= props_view(dest@));
                    assert(self@ =~= sp_handle_state(st0, property@, *ctx));
                }
                true
            },
            Property::AnimationDuration(val, vp) => {
                let mut needs = false;
                match &self.durations {
                    Some((cur, prefixes)) => {
                        if !times_vec_eq(cur, val) && !prefixes.contains(*vp) {
                            needs = true;
                        }
                    },
                    None => {},
                }
                if needs {
                    self.flush(dest, ctx);
                }
                let cloned = clone_copy_vec(val);
                match self.durations.take() {
                    Some((_discard, prefixes)) => {
                        self.durations = Some((cloned, prefixes.union(*vp)));
                    },
                    None => {
                        self.durations = Some((cloned, *vp));
                        self.has_any = true;
                    },
                }
                proof {
                    assert(props_view(dest@) + Seq::<PropV>::empty() =~= props_view(dest@));
                    assert(self@ =~= sp_handle_state(st0, property@, *ctx));
                }
                true
            },
            Property::AnimationTimingFunction(val, vp) => {
                let mut needs = false;
                match &self.timing_functions {
                    Some((cur, prefixes)) => {
                        if !easings_vec_eq(cur, val) && !prefixes.contains(*vp) {
                            needs = true;
                        }
                    },
                    None => {},
                }
                if needs {
                    self.flush(dest, ctx);
                }
                let cloned = clone_copy_vec(val);
                match self.timing_functions.take() {
                    Some((_discard, prefixes)) => {
                        self.timing_functions = Some((cloned, prefixes.union(*vp)));
                    },
                    None => {
                        self.timing_functions = Some((cloned, *vp));
                        self.has_any = true;
                    },
                }
                proof {
                    assert(props_view(dest@) + Seq::<PropV>::empty() =~= props_view(dest@));
                    assert(self@ =~= sp_handle_state(st0, property@, *ctx));
                }
                true
            },
            Property::AnimationIterationCount(val, vp) => {
                let mut needs = false;
                match &self.iteration_counts {
                    Some((cur, prefixes)) => {
                        if !iters_vec_eq(cur, val) && !prefixes.contains(*vp) {
                            needs = true;
                        }
                    },
                    None => {},
                }
                if needs {
                    self.flush(dest, ctx);
                }
                let cloned = clone_copy_vec(val);
                match self.iteration_counts.take() {
                    Some((_discard, prefixes)) => {
                        self.iteration_counts = Some((cloned, prefixes.union(*vp)));
                    },
                    None => {
                        self.iteration_counts = Some((cloned, *vp));
                        self.has_any = true;
                    },
                }
                proof {
                    assert(props_view(dest@) + Seq::<PropV>::empty() =~= props_view(dest@));
                    assert(self@ =~= sp_handle_state(st0, property@, *ctx));
                }
                true
            },
            Property::AnimationDirection(val, vp) => {
                let mut needs = false;
                match &self.directions {
                    Some((cur, prefixes)) => {
                        if !dirs_vec_eq(cur, val) && !prefixes.contains(*vp) {
                            needs = true;
                        }
                    },
                    None => {},
                }
                if needs {
                    self.flush(dest, ctx);
                }
                let cloned = clone_copy_vec(val);
                match self.directions.take() {
                    Some((_discard, prefixes)) => {
                        self.directions = Some((cloned, prefixes.union(*vp)));
                    },
                    None => {
                        self.directions = Some((cloned, *vp));
                        self.has_any = true;
                    },
                }
                proof {
                    assert(props_view(dest@) + Seq::<PropV>::empty() =~= props_view(dest@));
                    assert(self@ =~= sp_handle_state(st0, property@, *ctx));
                }
                true
            },
            Property::AnimationPlayState(val, vp) => {
                let mut needs = false;
                match &self.play_states {
                    Some((cur, prefixes)) => {
                        if !plays_vec_eq(cur, val) && !prefixes.contains(*vp) {
                            needs = true;
                        }
                    },
                    None => {},
                }
                if needs {
                    self.flush(dest, ctx);
                }
                let cloned = clone_copy_vec(val);
                match self.play_states.take() {
                    Some((_discard, prefixes)) => {
                        self.play_states = Some((cloned, prefixes.union(*vp)));
                    },
                    None => {
                        self.play_states = Some((cloned, *vp));
                        self.has_any = true;
                    },
                }
                proof {
                    assert(props_view(dest@) + Seq::<PropV>::empty() =~= props_view(dest@));
                    assert(self@ =~= sp_handle_state(st0, property@, *ctx));
                }
                true
            },
            Property::AnimationDelay(val, vp) => {
                let mut needs = false;
                match &self.delays {
                    Some((cur, prefixes)) => {
                        if !times_vec_eq(cur, val) && !prefixes.contains(*vp) {
                            needs = true;
                        }
                    },
                    None => {},
                }
                if needs {
                    self.flush(dest, ctx);
                }
                let cloned = clone_copy_vec(val);
                match self.delays.take() {
                    Some((_discard, prefixes)) => {
                        self.delays = Some((cloned, prefixes.union(*vp)));
                    },
                    None => {
                        self.delays = Some((cloned, *vp));
                        self.has_any = true;
                    },
                }
                proof {
                    assert(props_view(dest@) + Seq::<PropV>::empty() =~= props_view(dest@));
                    assert(self@ =~= sp_handle_state(st0, property@, *ctx));
                }
                true
            },
            Property::AnimationFillMode(val, vp) => {
                let mut needs = false;
                match &self.fill_modes {
                    Some((cur, prefixes)) => {
                        if !fills_vec_eq(cur, val) && !prefixes.contains(*vp) {
                            needs = true;
                        }
                    },
                    None => {},
                }
                if needs {
                    self.flush(dest, ctx);
                }
                let cloned = clone_copy_vec(val);
                match self.fill_modes.take() {
                    Some((_discard, prefixes)) => {
                        self.fill_modes = Some((cloned, prefixes.union(*vp)));
                    },
                    None => {
                        self.fill_modes = Some((cloned, *vp));
                        self.has_any = true;
                    },
                }
                proof {
                    assert(props_view(dest@) + Seq::<PropV>::empty() =~= props_view(dest@));
                    assert(self@ =~= sp_handle_state(st0, property@, *ctx));
                }
                true
            },
            Property::AnimationComposition(_) => false,
            Property::AnimationTimeline(val) => {
                self.timelines = Some(clone_timelines(val));
                self.has_any = true;
                proof {
                    assert(props_view(dest@) + Seq::<PropV>::empty() =~= props_view(dest@));
                    assert(self@ =~= sp_handle_state(st0, property@, *ctx));
                }
                true
            },
            Property::Animation(val, vp) => {
                let names_l = decompose_names(val);
                let durations_l = decompose_durations(val);
                let timing_functions_l = decompose_timing_functions(val);
                let iteration_counts_l = decompose_iteration_counts(val);
                let directions_l = decompose_directions(val);
                let play_states_l = decompose_play_states(val);
                let delays_l = decompose_delays(val);
                let fill_modes_l = decompose_fill_modes(val);
                let timelines_l = decompose_timelines(val);
                let mut needs = false;
                match &self.names {
                    Some((cur, prefixes)) => {
                        if !vec_names_eq(cur, &names_l) && !prefixes.contains(*vp) {
                            needs = true;
                        }
                    },
                    None => {},
                }
                if !needs {
                    match &self.durations {
                        Some((cur, prefixes)) => {
                            if !times_vec_eq(cur, &durations_l) && !prefixes.contains(*vp) {
                                needs = true;
                            }
                        },
                        None => {},
                    }
                }
                if !needs {
                    match &self.timing_functions {
                        Some((cur, prefixes)) => {
                            if !easings_vec_eq(cur, &timing_functions_l) && !prefixes.contains(*vp) {
                                needs = true;
                            }
                        },
                        None => {},
                    }
                }
                if !needs {
                    match &self.iteration_counts {
                        Some((cur, prefixes)) => {
                            if !iters_vec_eq(cur, &iteration_counts_l) && !prefixes.contains(*vp) {
                                needs = true;
                            }
                        },
                        None => {},
                    }
                }
                if !needs {
                    match &self.directions {
                        Some((cur, prefixes)) => {
                            if !dirs_vec_eq(cur, &directions_l) && !prefixes.contains(*vp) {
                                needs = true;
                            }
                        },
                        None => {},
                    }
                }
                if !needs {
                    match &self.play_states {
                        Some((cur, prefixes)) => {
                            if !plays_vec_eq(cur, &play_states_l) && !prefixes.contains(*vp) {
                                needs = true;
                            }
                        },
                        None => {},
                    }
                }
                if !needs {
                    match &self.delays {
                        Some((cur, prefixes)) => {
                            if !times_vec_eq(cur, &delays_l) && !prefixes.contains(*vp) {
                                needs = true;
                            }
                        },
                        None => {},
                    }
                }
                if !needs {
                    match &self.fill_modes {
                        Some((cur, prefixes)) => {
                            if !fills_vec_eq(cur, &fill_modes_l) && !prefixes.contains(*vp) {
                                needs = true;
                            }
                        },
                        None => {},
                    }
                }
                proof {
                    assert(needs == sp_shorthand_needs(st0, entries_view(val@), *vp));
                }
                if needs {
                    self.flush(dest, ctx);
                }
                self.timelines = Some(timelines_l);
                self.has_any = true;
                match self.names.take() {
                    Some((_discard, prefixes)) => {
                        self.names = Some((names_l, prefixes.union(*vp)));
                    },
                    None => {
                        self.names = Some((names_l, *vp));
                        self.has_any = true;
                    },
                }
                match self.durations.take() {
                    Some((_discard, prefixes)) => {
                        self.durations = Some((durations_l, prefixes.union(*vp)));
                    },
                    None => {
                        self.durations = Some((durations_l, *vp));
                        self.has_any = true;
                    },
                }
                match self.timing_functions.take() {
                    Some((_discard, prefixes)) => {
                        self.timing_functions = Some((timing_functions_l, prefixes.union(*vp)));
                    },
                    None => {
                        self.timing_functions = Some((timing_functions_l, *vp));
                        self.has_any = true;
                    },
                }
                match self.iteration_counts.take() {
                    Some((_discard, prefixes)) => {
                        self.iteration_counts = Some((iteration_counts_l, prefixes.union(*vp)));
                    },
                    None => {
                        self.iteration_counts = Some((iteration_counts_l, *vp));
                        self.has_any = true;
                    },
                }
                match self.directions.take() {
                    Some((_discard, prefixes)) => {
                        self.directions = Some((directions_l, prefixes.union(*vp)));
                    },
                    None => {
                        self.directions = Some((directions_l, *vp));
                        self.has_any = true;
                    },
                }
                match self.play_states.take() {
                    Some((_discard, prefixes)) => {
                        self.play_states = Some((play_states_l, prefixes.union(*vp)));
                    },
                    None => {
                        self.play_states = Some((play_states_l, *vp));
                        self.has_any = true;
                    },
                }
                match self.delays.take() {
                    Some((_discard, prefixes)) => {
                        self.delays = Some((delays_l, prefixes.union(*vp)));
                    },
                    None => {
                        self.delays = Some((delays_l, *vp));
                        self.has_any = true;
                    },
                }
                match self.fill_modes.take() {
                    Some((_discard, prefixes)) => {
                        self.fill_modes = Some((fill_modes_l, prefixes.union(*vp)));
                    },
                    None => {
                        self.fill_modes = Some((fill_modes_l, *vp));
                        self.has_any = true;
                    },
                }
                proof {
                    assert(props_view(dest@) + Seq::<PropV>::empty() =~= props_view(dest@));
                    assert(self@ =~= sp_handle_state(st0, property@, *ctx));
                }
                true
            },
            Property::Unparsed(u) => {
                if is_animation_property(&u.property_id) {
                    let subst = substitute_unparsed(u);
                    self.flush(dest, ctx);
                    let ghost gb = props_view(dest@);
                    dest.push(Property::Unparsed(subst));
                    proof {
                        assert(props_view(dest@) =~= gb.push(
                            PropV::Unparsed(sp_substitute(u@)),
                        ));
                        assert(props_view(dest@) =~= props_view(old(dest)@) + sp_handle_out(
                            st0,
                            property@,
                            *ctx,
                        ));
                    }
                    true
                } else {
                    false
                }
            },
        }
    }

    /// Ends the declaration block: one last flush.
    pub fn finalize(&mut self, dest: &mut Vec<Property>, ctx: &HandlerContext)
        requires
            old(self)@.wf(),
        ensures
            final(self)@ == empty_state(),
            props_view(final(dest)@) == props_view(old(dest)@) + sp_flush(old(self)@, *ctx),
    {
        self.flush(dest, ctx);
    }
}

} // verus!

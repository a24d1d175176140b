//! Declarations of the animation property family: the longhands, the
//! shorthand, and the opaque unparsed fallback, with their property
//! identities.

use vstd::prelude::*;
use crate::vendor::VendorPrefix;
use crate::tokens::{Token, TokV};
use crate::values::{
    Time, EasingFunction, AnimationName, NameV, AnimationIterationCount, AnimationDirection,
    AnimationPlayState, AnimationFillMode, AnimationComposition,
};
use crate::timeline::{AnimationTimeline, TimelineV};
use crate::shorthand::{Animation, EntryV, entries_view};

verus! {

/// The identity of a property, as carried by an unparsed declaration.
/// Properties outside the animation family appear as `Other`.
#[derive(Debug, Clone, Copy, PartialEq, Eq, Structural)]
pub enum PropertyId {
    /// The animation-name property.
    AnimationName(VendorPrefix),
    /// The animation-duration property.
    AnimationDuration(VendorPrefix),
    /// The animation-timing-function property.
    AnimationTimingFunction(VendorPrefix),
    /// The animation-iteration-count property.
    AnimationIterationCount(VendorPrefix),
    /// The animation-direction property.
    AnimationDirection(VendorPrefix),
    /// The animation-play-state property.
    AnimationPlayState(VendorPrefix),
    /// The animation-delay property.
    AnimationDelay(VendorPrefix),
    /// The animation-fill-mode property.
    AnimationFillMode(VendorPrefix),
    /// The animation-composition property.
    AnimationComposition,
    /// The animation-timeline property.
    AnimationTimeline,
    /// The animation shorthand property.
    Animation(VendorPrefix),
    /// A property outside the animation family.
    Other,
}

/// Whether a property identity belongs to the animation family.
pub open spec fn sp_is_animation_property(id: PropertyId) -> bool {
    !(id is Other)
}

/// Whether a property identity belongs to the animation family, as
/// executable code.
pub fn is_animation_property(property_id: &PropertyId) -> (r: bool)
    ensures
        r == sp_is_animation_property(*property_id),
{
    !matches!(property_id, PropertyId::Other)
}

/// One element of an unparsed value: a raw token, or a token already
/// recognized as an animation name so that identifier scoping can see it.
#[derive(Debug, Clone, PartialEq)]
pub enum TokenOrValue {
    /// A raw token.
    Token(Token),
    /// A token recognized as an animation name.
    AnimationName(AnimationName),
}

/// The mathematical view of an unparsed-value element.
#[verifier::ext_equal]
pub enum TokOrValV {
    /// A raw token.
    Token(TokV),
    /// A token recognized as an animation name.
    AnimationName(NameV),
}

impl View for TokenOrValue {
    type V = TokOrValV;

    open spec fn view(&self) -> TokOrValV {
        match self {
            TokenOrValue::Token(t) => TokOrValV::Token(t@),
            TokenOrValue::AnimationName(n) => TokOrValV::AnimationName(n@),
        }
    }
}

/// The views of an unparsed value.
pub open spec fn tokens_or_values_view(ts: Seq<TokenOrValue>) -> Seq<TokOrValV> {
    ts.map_values(|t: TokenOrValue| t@)
}

/// A declaration whose value could not be fully understood but must be
/// preserved: the raw tokens together with the property identity.
#[derive(Debug, Clone, PartialEq)]
pub struct UnparsedProperty {
    /// Which property the value belongs to.
    pub property_id: PropertyId,
    /// The raw value.
    pub value: Vec<TokenOrValue>,
}

/// The mathematical view of an unparsed declaration.
#[verifier::ext_equal]
pub struct UnparsedV {
    /// Which property the value belongs to.
    pub property_id: PropertyId,
    /// The raw value.
    pub value: Seq<TokOrValV>,
}

impl View for UnparsedProperty {
    type V = UnparsedV;

    open spec fn view(&self) -> UnparsedV {
        UnparsedV { property_id: self.property_id, value: tokens_or_values_view(self.value@) }
    }
}

/// A declaration of the animation family.
#[derive(Debug, Clone, PartialEq)]
pub enum Property {
    /// An animation-name declaration.
    AnimationName(Vec<AnimationName>, VendorPrefix),
    /// An animation-duration declaration.
    AnimationDuration(Vec<Time>, VendorPrefix),
    /// An animation-timing-function declaration.
    AnimationTimingFunction(Vec<EasingFunction>, VendorPrefix),
    /// An animation-iteration-count declaration.
    AnimationIterationCount(Vec<AnimationIterationCount>, VendorPrefix),
    /// An animation-direction declaration.
    AnimationDirection(Vec<AnimationDirection>, VendorPrefix),
    /// An animation-play-state declaration.
    AnimationPlayState(Vec<AnimationPlayState>, VendorPrefix),
    /// An animation-delay declaration.
    AnimationDelay(Vec<Time>, VendorPrefix),
    /// An animation-fill-mode declaration.
    AnimationFillMode(Vec<AnimationFillMode>, VendorPrefix),
    /// An animation-composition declaration; never vendor-prefixed.
    AnimationComposition(Vec<AnimationComposition>),
    /// An animation-timeline declaration; never vendor-prefixed.
    AnimationTimeline(Vec<AnimationTimeline>),
    /// An animation shorthand declaration.
    Animation(Vec<Animation>, VendorPrefix),
    /// An unparsed declaration, preserved verbatim.
    Unparsed(UnparsedProperty),
}

/// The views of a list of animation names.
pub open spec fn names_view(l: Seq<AnimationName>) -> Seq<NameV> {
    l.map_values(|n: AnimationName| n@)
}

/// The views of a list of timelines.
pub open spec fn timelines_view(l: Seq<AnimationTimeline>) -> Seq<TimelineV> {
    l.map_values(|t: AnimationTimeline| t@)
}

/// The mathematical view of a declaration.
#[verifier::ext_equal]
pub enum PropV {
    /// An animation-name declaration.
    AnimationName(Seq<NameV>, VendorPrefix),
    /// An animation-duration declaration.
    AnimationDuration(Seq<Time>, VendorPrefix),
    /// An animation-timing-function declaration.
    AnimationTimingFunction(Seq<EasingFunction>, VendorPrefix),
    /// An animation-iteration-count declaration.
    AnimationIterationCount(Seq<AnimationIterationCount>, VendorPrefix),
    /// An animation-direction declaration.
    AnimationDirection(Seq<AnimationDirection>, VendorPrefix),
    /// An animation-play-state declaration.
    AnimationPlayState(Seq<AnimationPlayState>, VendorPrefix),
    /// An animation-delay declaration.
    AnimationDelay(Seq<Time>, VendorPrefix),
    /// An animation-fill-mode declaration.
    AnimationFillMode(Seq<AnimationFillMode>, VendorPrefix),
    /// An animation-composition declaration.
    AnimationComposition(Seq<AnimationComposition>),
    /// An animation-timeline declaration.
    AnimationTimeline(Seq<TimelineV>),
    /// An animation shorthand declaration.
    Animation(Seq<EntryV>, VendorPrefix),
    /// An unparsed declaration.
    Unparsed(UnparsedV),
}

impl View for Property {
    type V = PropV;

    open spec fn view(&self) -> PropV {
        match self {
            Property::AnimationName(l, vp) => PropV::AnimationName(names_view(l@), *vp),
            Property::AnimationDuration(l, vp) => PropV::AnimationDuration(l@, *vp),
            Property::AnimationTimingFunction(l, vp) => PropV::AnimationTimingFunction(l@, *vp),
            Property::AnimationIterationCount(l, vp) => PropV::AnimationIterationCount(l@, *vp),
            Property::AnimationDirection(l, vp) => PropV::AnimationDirection(l@, *vp),
            Property::AnimationPlayState(l, vp) => PropV::AnimationPlayState(l@, *vp),
            Property::AnimationDelay(l, vp) => PropV::AnimationDelay(l@, *vp),
            Property::AnimationFillMode(l, vp) => PropV::AnimationFillMode(l@, *vp),
            Property::AnimationComposition(l) => PropV::AnimationComposition(l@),
            Property::AnimationTimeline(l) => PropV::AnimationTimeline(timelines_view(l@)),
            Property::Animation(l, vp) => PropV::Animation(entries_view(l@), *vp),
            Property::Unparsed(u) => PropV::Unparsed(u@),
        }
    }
}

/// The views of a declaration list.
pub open spec fn props_view(l: Seq<Property>) -> Seq<PropV> {
    l.map_values(|p: Property| p@)
}

} // verus!

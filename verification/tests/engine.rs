use css_animation::handler::{AnimationHandler, HandlerContext};
use css_animation::properties::{Property, PropertyId, TokenOrValue};
use css_animation::shorthand::Animation;
use css_animation::timeline::AnimationTimeline;
use css_animation::tokens::Token;
use css_animation::values::{
    AnimationDirection, AnimationFillMode, AnimationIterationCount, AnimationName,
    AnimationPlayState, EasingFunction, Time,
};
use css_animation::properties::is_animation_property;
use css_animation::vendor::VendorPrefix;

fn ctx() -> HandlerContext {
    HandlerContext { timeline_shorthand_supported: true }
}

fn unprefixed() -> VendorPrefix {
    VendorPrefix::unprefixed()
}

fn feed_eight_defaults_with(
    handler: &mut AnimationHandler,
    dest: &mut Vec<Property>,
    name: &str,
    duration_ms: i64,
    vp: VendorPrefix,
) {
    let c = ctx();
    handler.handle_property(
        &Property::AnimationName(vec![AnimationName::Ident(name.to_string())], vp),
        dest,
        &c,
    );
    handler.handle_property(
        &Property::AnimationDuration(vec![Time { ms: duration_ms }], vp),
        dest,
        &c,
    );
    handler.handle_property(
        &Property::AnimationTimingFunction(vec![EasingFunction::Ease], vp),
        dest,
        &c,
    );
    handler.handle_property(
        &Property::AnimationIterationCount(vec![AnimationIterationCount::Number(1)], vp),
        dest,
        &c,
    );
    handler.handle_property(
        &Property::AnimationDirection(vec![AnimationDirection::Normal], vp),
        dest,
        &c,
    );
    handler.handle_property(
        &Property::AnimationPlayState(vec![AnimationPlayState::Running], vp),
        dest,
        &c,
    );
    handler.handle_property(&Property::AnimationDelay(vec![Time { ms: 0 }], vp), dest, &c);
    handler.handle_property(
        &Property::AnimationFillMode(vec![AnimationFillMode::NoneKw], vp),
        dest,
        &c,
    );
}

#[test]
fn eight_longhands_collapse_to_shorthand() {
    let mut handler = AnimationHandler::new();
    let mut dest: Vec<Property> = Vec::new();
    feed_eight_defaults_with(&mut handler, &mut dest, "ease", 2000, unprefixed());
    assert!(dest.is_empty());
    handler.finalize(&mut dest, &ctx());
    assert_eq!(dest.len(), 1);
    match &dest[0] {
        Property::Animation(entries, vp) => {
            assert_eq!(*vp, unprefixed());
            assert_eq!(entries.len(), 1);
            assert_eq!(entries[0].name, AnimationName::Ident("ease".to_string()));
            assert_eq!(entries[0].duration, Time { ms: 2000 });
        },
        other => panic!("expected a shorthand, got {:?}", other),
    }
    let mut css = String::new();
    match &dest[0] {
        Property::Animation(entries, _) => entries[0].to_css(&mut css),
        _ => unreachable!(),
    }
    assert_eq!(css, "2s ease ease");
}

#[test]
fn length_mismatch_emits_only_longhands() {
    let mut handler = AnimationHandler::new();
    let mut dest: Vec<Property> = Vec::new();
    let c = ctx();
    handler.handle_property(
        &Property::AnimationName(
            vec![
                AnimationName::Ident("a".to_string()),
                AnimationName::Ident("b".to_string()),
            ],
            unprefixed(),
        ),
        &mut dest,
        &c,
    );
    feed_only_seven(&mut handler, &mut dest);
    handler.finalize(&mut dest, &c);
    assert_eq!(dest.len(), 8);
    for p in &dest {
        assert!(!matches!(p, Property::Animation(_, _)));
    }
}

fn feed_only_seven(handler: &mut AnimationHandler, dest: &mut Vec<Property>) {
    let c = ctx();
    let vp = unprefixed();
    handler.handle_property(
        &Property::AnimationDuration(vec![Time { ms: 1000 }], vp),
        dest,
        &c,
    );
    handler.handle_property(
        &Property::AnimationTimingFunction(vec![EasingFunction::Linear], vp),
        dest,
        &c,
    );
    handler.handle_property(
        &Property::AnimationIterationCount(vec![AnimationIterationCount::Number(1)], vp),
        dest,
        &c,
    );
    handler.handle_property(
        &Property::AnimationDirection(vec![AnimationDirection::Normal], vp),
        dest,
        &c,
    );
    handler.handle_property(
        &Property::AnimationPlayState(vec![AnimationPlayState::Running], vp),
        dest,
        &c,
    );
    handler.handle_property(&Property::AnimationDelay(vec![Time { ms: 0 }], vp), dest, &c);
    handler.handle_property(
        &Property::AnimationFillMode(vec![AnimationFillMode::NoneKw], vp),
        dest,
        &c,
    );
}

#[test]
fn leftover_prefixes_survive_the_collapse() {
    let mut handler = AnimationHandler::new();
    let mut dest: Vec<Property> = Vec::new();
    let c = ctx();
    let both = unprefixed().union(VendorPrefix::webkit());
    feed_eight_defaults_with(&mut handler, &mut dest, "fade", 2000, unprefixed());
    handler.handle_property(
        &Property::AnimationDuration(vec![Time { ms: 2000 }], both),
        &mut dest,
        &c,
    );
    handler.finalize(&mut dest, &c);
    assert_eq!(dest.len(), 2);
    assert!(matches!(&dest[0], Property::Animation(_, vp) if *vp == unprefixed()));
    match &dest[1] {
        Property::AnimationDuration(times, vp) => {
            assert_eq!(times, &vec![Time { ms: 2000 }]);
            assert_eq!(*vp, VendorPrefix::webkit());
        },
        other => panic!("expected the remaining prefixed duration, got {:?}", other),
    }
}

#[test]
fn prefix_conflict_preserves_order() {
    let mut handler = AnimationHandler::new();
    let mut dest: Vec<Property> = Vec::new();
    let c = ctx();
    handler.handle_property(
        &Property::AnimationDuration(vec![Time { ms: 1000 }], unprefixed()),
        &mut dest,
        &c,
    );
    handler.handle_property(
        &Property::AnimationDuration(vec![Time { ms: 2000 }], VendorPrefix::webkit()),
        &mut dest,
        &c,
    );
    handler.handle_property(
        &Property::AnimationDuration(vec![Time { ms: 3000 }], unprefixed()),
        &mut dest,
        &c,
    );
    handler.finalize(&mut dest, &c);
    assert_eq!(dest.len(), 3);
    match (&dest[0], &dest[1], &dest[2]) {
        (
            Property::AnimationDuration(a, avp),
            Property::AnimationDuration(b, bvp),
            Property::AnimationDuration(d, dvp),
        ) => {
            assert_eq!((a, *avp), (&vec![Time { ms: 1000 }], unprefixed()));
            assert_eq!((b, *bvp), (&vec![Time { ms: 2000 }], VendorPrefix::webkit()));
            assert_eq!((d, *dvp), (&vec![Time { ms: 3000 }], unprefixed()));
        },
        other => panic!("expected three duration longhands, got {:?}", other),
    }
}

#[test]
fn same_value_unions_prefixes() {
    let mut handler = AnimationHandler::new();
    let mut dest: Vec<Property> = Vec::new();
    let c = ctx();
    handler.handle_property(
        &Property::AnimationDuration(vec![Time { ms: 1000 }], unprefixed()),
        &mut dest,
        &c,
    );
    handler.handle_property(
        &Property::AnimationDuration(vec![Time { ms: 1000 }], VendorPrefix::moz()),
        &mut dest,
        &c,
    );
    handler.finalize(&mut dest, &c);
    assert_eq!(dest.len(), 1);
    match &dest[0] {
        Property::AnimationDuration(times, vp) => {
            assert_eq!(times, &vec![Time { ms: 1000 }]);
            assert_eq!(*vp, unprefixed().union(VendorPrefix::moz()));
        },
        other => panic!("expected one merged duration, got {:?}", other),
    }
}

#[test]
fn unparsed_flushes_once_and_substitutes() {
    let mut handler = AnimationHandler::new();
    let mut dest: Vec<Property> = Vec::new();
    let c = ctx();
    handler.handle_property(
        &Property::AnimationDuration(vec![Time { ms: 1000 }], unprefixed()),
        &mut dest,
        &c,
    );
    let unparsed = css_animation::properties::UnparsedProperty {
        property_id: PropertyId::Animation(unprefixed()),
        value: vec![
            TokenOrValue::Token(Token::Ident("reverse".to_string())),
            TokenOrValue::Token(Token::Ident("wiggle".to_string())),
            TokenOrValue::Token(Token::QuotedStr("spin".to_string())),
        ],
    };
    let consumed = handler.handle_property(&Property::Unparsed(unparsed), &mut dest, &c);
    assert!(consumed);
    assert_eq!(dest.len(), 2);
    assert!(matches!(&dest[0], Property::AnimationDuration(_, _)));
    match &dest[1] {
        Property::Unparsed(u) => {
            assert!(matches!(u.property_id, PropertyId::Animation(_)));
            assert_eq!(
                u.value[0],
                TokenOrValue::Token(Token::Ident("reverse".to_string()))
            );
            assert_eq!(
                u.value[1],
                TokenOrValue::AnimationName(AnimationName::Ident("wiggle".to_string()))
            );
            assert_eq!(
                u.value[2],
                TokenOrValue::AnimationName(AnimationName::String("spin".to_string()))
            );
        },
        other => panic!("expected the unparsed declaration back, got {:?}", other),
    }
    handler.finalize(&mut dest, &c);
    assert_eq!(dest.len(), 2);
}

#[test]
fn composition_is_not_consumed() {
    let mut handler = AnimationHandler::new();
    let mut dest: Vec<Property> = Vec::new();
    let consumed = handler.handle_property(
        &Property::AnimationComposition(vec![
            css_animation::values::AnimationComposition::Add,
        ]),
        &mut dest,
        &ctx(),
    );
    assert!(!consumed);
    assert!(dest.is_empty());
}

#[test]
fn foreign_unparsed_is_not_consumed() {
    let mut handler = AnimationHandler::new();
    let mut dest: Vec<Property> = Vec::new();
    let unparsed = css_animation::properties::UnparsedProperty {
        property_id: PropertyId::Other,
        value: vec![TokenOrValue::Token(Token::Ident("foo".to_string()))],
    };
    let consumed = handler.handle_property(&Property::Unparsed(unparsed), &mut dest, &ctx());
    assert!(!consumed);
    assert!(dest.is_empty());
}

#[test]
fn separate_timeline_when_prefixed_or_unsupported() {
    let mut handler = AnimationHandler::new();
    let mut dest: Vec<Property> = Vec::new();
    let unsupported = HandlerContext { timeline_shorthand_supported: false };
    feed_eight_defaults_with(&mut handler, &mut dest, "fade", 2000, unprefixed());
    handler.handle_property(
        &Property::AnimationTimeline(vec![AnimationTimeline::DashedIdent("--tl".to_string())]),
        &mut dest,
        &unsupported,
    );
    handler.finalize(&mut dest, &unsupported);
    assert_eq!(dest.len(), 2);
    match (&dest[0], &dest[1]) {
        (Property::Animation(entries, _), Property::AnimationTimeline(timelines)) => {
            assert_eq!(entries[0].timeline, AnimationTimeline::Auto);
            assert_eq!(
                timelines,
                &vec![AnimationTimeline::DashedIdent("--tl".to_string())]
            );
        },
        other => panic!("expected shorthand plus separate timeline, got {:?}", other),
    }
}

#[test]
fn timeline_folds_into_shorthand_when_supported() {
    let mut handler = AnimationHandler::new();
    let mut dest: Vec<Property> = Vec::new();
    let c = ctx();
    feed_eight_defaults_with(&mut handler, &mut dest, "fade", 2000, unprefixed());
    handler.handle_property(
        &Property::AnimationTimeline(vec![AnimationTimeline::DashedIdent("--tl".to_string())]),
        &mut dest,
        &c,
    );
    handler.finalize(&mut dest, &c);
    assert_eq!(dest.len(), 1);
    match &dest[0] {
        Property::Animation(entries, _) => {
            assert_eq!(
                entries[0].timeline,
                AnimationTimeline::DashedIdent("--tl".to_string())
            );
        },
        other => panic!("expected one shorthand with the timeline folded in, got {:?}", other),
    }
}

#[test]
fn shorthand_declaration_is_decomposed_and_recombined() {
    let mut handler = AnimationHandler::new();
    let mut dest: Vec<Property> = Vec::new();
    let c = ctx();
    let entry = Animation {
        name: AnimationName::Ident("fade".to_string()),
        duration: Time { ms: 500 },
        timing_function: EasingFunction::Linear,
        iteration_count: AnimationIterationCount::Number(2),
        direction: AnimationDirection::Reverse,
        play_state: AnimationPlayState::Paused,
        delay: Time { ms: 100 },
        fill_mode: AnimationFillMode::Both,
        timeline: AnimationTimeline::Auto,
    };
    handler.handle_property(
        &Property::Animation(vec![entry.clone()], unprefixed()),
        &mut dest,
        &c,
    );
    handler.handle_property(
        &Property::AnimationDelay(vec![Time { ms: 250 }], unprefixed()),
        &mut dest,
        &c,
    );
    handler.finalize(&mut dest, &c);
    assert_eq!(dest.len(), 1);
    match &dest[0] {
        Property::Animation(entries, _) => {
            assert_eq!(entries[0].delay, Time { ms: 250 });
            assert_eq!(entries[0].name, AnimationName::Ident("fade".to_string()));
        },
        other => panic!("expected the later delay merged into the shorthand, got {:?}", other),
    }
}

#[test]
fn is_animation_property_covers_the_family() {
    assert!(is_animation_property(&PropertyId::AnimationName(unprefixed())));
    assert!(is_animation_property(&PropertyId::AnimationComposition));
    assert!(is_animation_property(&PropertyId::AnimationTimeline));
    assert!(is_animation_property(&PropertyId::Animation(unprefixed())));
    assert!(!is_animation_property(&PropertyId::Other));
}

#[test]
fn vendor_prefix_set_operations() {
    let u = VendorPrefix::unprefixed();
    let w = VendorPrefix::webkit();
    let m = VendorPrefix::moz();
    let uw = u.union(w);
    assert!(uw.contains(u));
    assert!(uw.contains(w));
    assert!(!uw.contains(m));
    assert_eq!(uw.intersect(w), w);
    assert_eq!(uw.remove(w), u);
    assert!(VendorPrefix::empty().is_empty());
    assert!(!uw.is_empty());
    assert_eq!(uw.intersect(m), VendorPrefix::empty());
}

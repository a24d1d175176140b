use css_animation::shorthand::{Animation, ParseError};
use css_animation::timeline::{
    AnimationTimeline, LengthPercentageOrAuto, ScrollAxis, ScrollTimeline, Scroller, Size2D,
    ViewTimeline,
};
use css_animation::tokens::{render_tokens, Token};
use css_animation::values::{
    AnimationDirection, AnimationFillMode, AnimationIterationCount, AnimationName,
    AnimationPlayState, EasingFunction, Time,
};

fn ident(s: &str) -> Token {
    Token::Ident(s.to_string())
}

fn secs(n: i64) -> Token {
    Token::Time(Time { ms: n * 1000 })
}

fn default_entry_with_name(name: &str) -> Animation {
    Animation {
        name: AnimationName::Ident(name.to_string()),
        duration: Time { ms: 0 },
        timing_function: EasingFunction::Ease,
        iteration_count: AnimationIterationCount::Number(1),
        direction: AnimationDirection::Normal,
        play_state: AnimationPlayState::Running,
        delay: Time { ms: 0 },
        fill_mode: AnimationFillMode::NoneKw,
        timeline: AnimationTimeline::Auto,
    }
}

fn round_trip(entry: &Animation) {
    let mut toks: Vec<Token> = Vec::new();
    entry.push_tokens(&mut toks);
    let (reparsed, consumed) = Animation::parse(&toks, 0);
    assert_eq!(consumed, toks.len());
    assert_eq!(&reparsed, entry);
}

#[test]
fn round_trip_ordinary_name() {
    let mut e = default_entry_with_name("spin");
    e.duration = Time { ms: 2000 };
    e.delay = Time { ms: 150 };
    e.iteration_count = AnimationIterationCount::Infinite;
    round_trip(&e);
}

#[test]
fn round_trip_name_ease() {
    round_trip(&default_entry_with_name("ease"));
}

#[test]
fn round_trip_name_linear() {
    round_trip(&default_entry_with_name("linear"));
}

#[test]
fn round_trip_name_reverse() {
    round_trip(&default_entry_with_name("reverse"));
}

#[test]
fn round_trip_name_alternate() {
    round_trip(&default_entry_with_name("alternate"));
}

#[test]
fn round_trip_name_forwards() {
    round_trip(&default_entry_with_name("forwards"));
}

#[test]
fn round_trip_name_backwards() {
    round_trip(&default_entry_with_name("backwards"));
}

#[test]
fn round_trip_name_both() {
    round_trip(&default_entry_with_name("both"));
}

#[test]
fn round_trip_name_paused() {
    round_trip(&default_entry_with_name("paused"));
}

#[test]
fn round_trip_name_infinite() {
    round_trip(&default_entry_with_name("infinite"));
}

#[test]
fn round_trip_none_entry() {
    let e = Animation {
        name: AnimationName::NoneKw,
        ..default_entry_with_name("x")
    };
    let mut toks: Vec<Token> = Vec::new();
    e.push_tokens(&mut toks);
    assert_eq!(toks, vec![ident("none")]);
    round_trip(&e);
}

#[test]
fn round_trip_reserved_string_name() {
    let e = Animation {
        name: AnimationName::String("none".to_string()),
        ..default_entry_with_name("x")
    };
    round_trip(&e);
}

#[test]
fn round_trip_timeline_kept() {
    let mut e = default_entry_with_name("slide");
    e.fill_mode = AnimationFillMode::Forwards;
    e.timeline = AnimationTimeline::NoneKw;
    round_trip(&e);
    let mut e2 = default_entry_with_name("slide");
    e2.timeline = AnimationTimeline::DashedIdent("--tl".to_string());
    round_trip(&e2);
    let mut e3 = default_entry_with_name("slide");
    e3.timeline = AnimationTimeline::Scroll(ScrollTimeline {
        scroller: Scroller::Root,
        axis: ScrollAxis::Inline,
    });
    round_trip(&e3);
    let mut e4 = default_entry_with_name("slide");
    e4.timeline = AnimationTimeline::View(ViewTimeline {
        axis: ScrollAxis::Y,
        inset: Size2D(LengthPercentageOrAuto::Px(10), LengthPercentageOrAuto::Percent(20)),
    });
    round_trip(&e4);
}

#[test]
fn greedy_parse_two_times() {
    let toks = vec![secs(2), ident("ease-out"), secs(1), ident("bounce")];
    let (e, consumed) = Animation::parse(&toks, 0);
    assert_eq!(consumed, 4);
    assert_eq!(e.duration, Time { ms: 2000 });
    assert_eq!(e.timing_function, EasingFunction::EaseOut);
    assert_eq!(e.delay, Time { ms: 1000 });
    assert_eq!(e.name, AnimationName::Ident("bounce".to_string()));
}

#[test]
fn bare_none_after_name_is_fill_mode() {
    let toks = vec![ident("foo"), ident("none")];
    let (e, consumed) = Animation::parse(&toks, 0);
    assert_eq!(consumed, 2);
    assert_eq!(e.name, AnimationName::Ident("foo".to_string()));
    assert_eq!(e.fill_mode, AnimationFillMode::NoneKw);
    assert_eq!(e.timeline, AnimationTimeline::Auto);
}

#[test]
fn scroll_argument_order_independent() {
    let a = vec![Token::Function("scroll".to_string()), ident("block"), ident("root"), Token::CloseParen];
    let b = vec![Token::Function("scroll".to_string()), ident("root"), ident("block"), Token::CloseParen];
    let ra = AnimationTimeline::parse(&a, 0).unwrap();
    let rb = AnimationTimeline::parse(&b, 0).unwrap();
    assert_eq!(ra.1, 4);
    assert_eq!(rb.1, 4);
    assert_eq!(ra.0, rb.0);
    assert_eq!(
        ra.0,
        AnimationTimeline::Scroll(ScrollTimeline { scroller: Scroller::Root, axis: ScrollAxis::Block })
    );
}

#[test]
fn view_arguments_parse_and_print() {
    let toks = vec![
        Token::Function("view".to_string()),
        ident("inline"),
        Token::Length(10),
        Token::Percentage(20),
        Token::CloseParen,
    ];
    let (tl, consumed) = AnimationTimeline::parse(&toks, 0).unwrap();
    assert_eq!(consumed, 5);
    assert_eq!(
        tl,
        AnimationTimeline::View(ViewTimeline {
            axis: ScrollAxis::Inline,
            inset: Size2D(LengthPercentageOrAuto::Px(10), LengthPercentageOrAuto::Percent(20)),
        })
    );
    let mut out = String::new();
    tl.to_css(&mut out);
    assert_eq!(out, "view(inline 10px 20%)");
}

#[test]
fn parse_list_splits_on_commas() {
    let toks = vec![secs(1), ident("a"), Token::Comma, secs(2), ident("b")];
    let list = Animation::parse_list(&toks).unwrap();
    assert_eq!(list.len(), 2);
    assert_eq!(list[0].name, AnimationName::Ident("a".to_string()));
    assert_eq!(list[0].duration, Time { ms: 1000 });
    assert_eq!(list[1].name, AnimationName::Ident("b".to_string()));
    assert_eq!(list[1].duration, Time { ms: 2000 });
}

#[test]
fn parse_list_reports_leftover_position() {
    let toks = vec![ident("foo"), ident("initial")];
    let err = Animation::parse_list(&toks).unwrap_err();
    assert_eq!(err, ParseError { pos: 1 });
}

#[test]
fn time_prints_minimal_units() {
    let mut s = String::new();
    Time { ms: 2000 }.to_css(&mut s);
    assert_eq!(s, "2s");
    let mut s = String::new();
    Time { ms: 1500 }.to_css(&mut s);
    assert_eq!(s, "1500ms");
    let mut s = String::new();
    Time { ms: 0 }.to_css(&mut s);
    assert_eq!(s, "0s");
    let mut s = String::new();
    Time { ms: -2000 }.to_css(&mut s);
    assert_eq!(s, "-2s");
    let mut s = String::new();
    Time { ms: -30 }.to_css(&mut s);
    assert_eq!(s, "-30ms");
}

#[test]
fn name_quoting_rules() {
    let mut s = String::new();
    AnimationName::String("none".to_string()).to_css(&mut s);
    assert_eq!(s, "\"none\"");
    let mut s = String::new();
    AnimationName::String("Revert-Layer".to_string()).to_css(&mut s);
    assert_eq!(s, "\"Revert-Layer\"");
    let mut s = String::new();
    AnimationName::String("fade".to_string()).to_css(&mut s);
    assert_eq!(s, "fade");
    let mut s = String::new();
    AnimationName::Ident("myAnim".to_string()).to_css(&mut s);
    assert_eq!(s, "myAnim");
    let mut s = String::new();
    AnimationName::NoneKw.to_css(&mut s);
    assert_eq!(s, "none");
}

#[test]
fn keywords_match_case_insensitively() {
    assert_eq!(EasingFunction::parse_string("EASE-IN"), Some(EasingFunction::EaseIn));
    assert!(EasingFunction::is_ident("Linear"));
    assert!(!EasingFunction::is_ident("bounce"));
    assert_eq!(
        AnimationDirection::parse_string("Alternate-Reverse"),
        Some(AnimationDirection::AlternateReverse)
    );
    let toks = vec![ident("INFINITE")];
    let (v, j) = AnimationIterationCount::parse(&toks, 0).unwrap();
    assert_eq!(j, 1);
    assert_eq!(v, AnimationIterationCount::Infinite);
}

#[test]
fn entry_prints_scroll_timeline_after_name() {
    let mut e = default_entry_with_name("fade");
    e.duration = Time { ms: 2000 };
    e.timeline = AnimationTimeline::Scroll(ScrollTimeline {
        scroller: Scroller::Root,
        axis: ScrollAxis::Block,
    });
    let mut s = String::new();
    e.to_css(&mut s);
    assert_eq!(s, "2s fade scroll(root)");
    round_trip(&e);
}

#[test]
fn render_separates_with_single_spaces() {
    let toks = vec![secs(2), ident("ease"), ident("fade")];
    let mut s = String::new();
    render_tokens(&toks, &mut s);
    assert_eq!(s, "2s ease fade");
}

#[test]
fn empty_value_parses_to_one_default_entry() {
    let toks: Vec<Token> = Vec::new();
    let list = Animation::parse_list(&toks).unwrap();
    assert_eq!(list.len(), 1);
    assert_eq!(list[0].name, AnimationName::NoneKw);
    assert_eq!(list[0].duration, Time { ms: 0 });
    assert_eq!(list[0].timeline, AnimationTimeline::Auto);
}

#[test]
fn scroll_with_default_arguments_round_trips() {
    let mut e = default_entry_with_name("fade");
    e.timeline = AnimationTimeline::Scroll(ScrollTimeline {
        scroller: Scroller::Nearest,
        axis: ScrollAxis::Block,
    });
    let mut s = String::new();
    e.timeline.to_css(&mut s);
    assert_eq!(s, "scroll()");
    round_trip(&e);
}

#[test]
fn iteration_count_prints_exact_number() {
    let mut s = String::new();
    AnimationIterationCount::Number(3).to_css(&mut s);
    assert_eq!(s, "3");
    let mut s = String::new();
    AnimationIterationCount::Infinite.to_css(&mut s);
    assert_eq!(s, "infinite");
}

#[test]
fn unknown_function_in_timeline_is_rejected() {
    let toks = vec![
        Token::Function("wobble".to_string()),
        Token::Ident("x".to_string()),
        Token::CloseParen,
    ];
    assert!(AnimationTimeline::parse(&toks, 0).is_none());
    let err = Animation::parse_list(&toks).unwrap_err();
    assert_eq!(err, ParseError { pos: 0 });
}

#[test]
fn leftover_inside_function_is_rejected() {
    let toks = vec![
        Token::Function("scroll".to_string()),
        Token::Ident("root".to_string()),
        Token::Ident("root".to_string()),
        Token::CloseParen,
    ];
    assert!(AnimationTimeline::parse(&toks, 0).is_none());
}

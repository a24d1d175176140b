//! The value grammar: typed representations, parse rules and print rules for
//! the atomic sub-values of the animation property family.
//!
//! Times and numbers are carried as integers (milliseconds, whole counts):
//! the external tokenizer normalizes units before this crate sees a value.

use vstd::prelude::*;
use crate::text::{ci_eq, dec_digits, eq_ignore_case, push_dec_u64, push_dec_i64};
use crate::tokens::{Token, TokV, toks_view, step_view, tok_text};

verus! {

/// A duration, in milliseconds.
#[derive(Debug, Clone, Copy, PartialEq, Eq, Structural)]
pub struct Time {
    /// Milliseconds; negative values arise for delays.
    pub ms: i64,
}

impl Time {
    /// The zero duration.
    pub fn zero() -> (r: Self)
        ensures
            r.ms == 0,
    {
        Time { ms: 0 }
    }

    /// Whether the duration is zero.
    pub fn is_zero(&self) -> (r: bool)
        ensures
            r == (self.ms == 0),
    {
        self.ms == 0
    }

    /// The canonical text: seconds when the value is a whole number of
    /// seconds, milliseconds otherwise.
    pub open spec fn spec_text(self) -> Seq<char> {
        let m: int = if self.ms < 0 {
            -(self.ms as int)
        } else {
            self.ms as int
        };
        let sign: Seq<char> = if self.ms < 0 {
            seq!['-']
        } else {
            Seq::<char>::empty()
        };
        if m % 1000 == 0 {
            sign + dec_digits((m / 1000) as nat) + seq!['s']
        } else {
            sign + dec_digits(m as nat) + seq!['m', 's']
        }
    }

    /// Parses a duration: a single time token.
    pub open spec fn sp_parse(t: Seq<TokV>, i: int) -> Option<(Time, int)> {
        if 0 <= i < t.len() {
            match t[i] {
                TokV::Time(tm) => Some((tm, i + 1)),
                _ => None,
            }
        } else {
            None
        }
    }

    /// Parses a duration from the token stream, as executable code.
    pub fn parse(toks: &Vec<Token>, i: usize) -> (r: Option<(Self, usize)>)
        requires
            i <= toks@.len(),
        ensures
            step_view(r) == Self::sp_parse(toks_view(toks@), i as int),
            r is Some ==> i < r->Some_0.1 <= toks@.len(),
    {
        if i < toks.len() {
            match &toks[i] {
                Token::Time(tm) => Some((*tm, i + 1)),
                _ => None,
            }
        } else {
            None
        }
    }

    /// Appends the canonical text of the duration to `dest`.
    pub fn to_css(&self, dest: &mut String)
        ensures
            final(dest)@ == old(dest)@ + self.spec_text(),
    {
        let neg = self.ms < 0;
        let mag: u64 = if neg {
            (-(self.ms as i128)) as u64
        } else {
            self.ms as u64
        };
        if neg {
            proof {
                reveal_strlit("-");
                assert("-"@ =~= seq!['-']);
            }
            dest.append("-");
        }
        if mag % 1000 == 0 {
            push_dec_u64(dest, mag / 1000);
            proof {
                reveal_strlit("s");
                assert("s"@ =~= seq!['s']);
            }
            dest.append("s");
        } else {
            push_dec_u64(dest, mag);
            proof {
                reveal_strlit("ms");
                assert("ms"@ =~= seq!['m', 's']);
            }
            dest.append("ms");
        }
        assert(dest@ =~= old(dest)@ + self.spec_text());
    }
}

/// An easing (timing) function keyword.
#[derive(Debug, Clone, Copy, PartialEq, Eq, Structural)]
pub enum EasingFunction {
    /// The `ease` keyword, the default.
    Ease,
    /// The `linear` keyword.
    Linear,
    /// The `ease-in` keyword.
    EaseIn,
    /// The `ease-out` keyword.
    EaseOut,
    /// The `ease-in-out` keyword.
    EaseInOut,
    /// The `step-start` keyword.
    StepStart,
    /// The `step-end` keyword.
    StepEnd,
}

impl EasingFunction {
    /// The canonical keyword text.
    pub open spec fn kw_text(self) -> Seq<char> {
        match self {
            EasingFunction::Ease => "ease"@,
            EasingFunction::Linear => "linear"@,
            EasingFunction::EaseIn => "ease-in"@,
            EasingFunction::EaseOut => "ease-out"@,
            EasingFunction::EaseInOut => "ease-in-out"@,
            EasingFunction::StepStart => "step-start"@,
            EasingFunction::StepEnd => "step-end"@,
        }
    }

    /// The keyword, matched case-insensitively.
    pub open spec fn sp_from_ident(s: Seq<char>) -> Option<EasingFunction> {
        if ci_eq(s, "linear"@) {
            Some(EasingFunction::Linear)
        } else if ci_eq(s, "ease"@) {
            Some(EasingFunction::Ease)
        } else if ci_eq(s, "ease-in"@) {
            Some(EasingFunction::EaseIn)
        } else if ci_eq(s, "ease-out"@) {
            Some(EasingFunction::EaseOut)
        } else if ci_eq(s, "ease-in-out"@) {
            Some(EasingFunction::EaseInOut)
        } else if ci_eq(s, "step-start"@) {
            Some(EasingFunction::StepStart)
        } else if ci_eq(s, "step-end"@) {
            Some(EasingFunction::StepEnd)
        } else {
            None
        }
    }

    /// Matches an identifier against the easing keywords.
    pub fn parse_string(s: &str) -> (r: Option<Self>)
        ensures
            r == Self::sp_from_ident(s@),
    {
        if eq_ignore_case(s, "linear") {
            Some(EasingFunction::Linear)
        } else if eq_ignore_case(s, "ease") {
            Some(EasingFunction::Ease)
        } else if eq_ignore_case(s, "ease-in") {
            Some(EasingFunction::EaseIn)
        } else if eq_ignore_case(s, "ease-out") {
            Some(EasingFunction::EaseOut)
        } else if eq_ignore_case(s, "ease-in-out") {
            Some(EasingFunction::EaseInOut)
        } else if eq_ignore_case(s, "step-start") {
            Some(EasingFunction::StepStart)
        } else if eq_ignore_case(s, "step-end") {
            Some(EasingFunction::StepEnd)
        } else {
            None
        }
    }

    /// Whether an identifier is one of the easing keywords.
    pub fn is_ident(s: &str) -> (r: bool)
        ensures
            r == (Self::sp_from_ident(s@) is Some),
    {
        Self::parse_string(s).is_some()
    }

    /// Whether this is the default easing function.
    pub fn is_ease(&self) -> (r: bool)
        ensures
            r == (*self == EasingFunction::Ease),
    {
        matches!(self, EasingFunction::Ease)
    }

    /// Parses an easing function: a single keyword identifier.
    pub open spec fn sp_parse(t: Seq<TokV>, i: int) -> Option<(EasingFunction, int)> {
        if 0 <= i < t.len() {
            match t[i] {
                TokV::Ident(s) => match Self::sp_from_ident(s) {
                    Some(v) => Some((v, i + 1)),
                    None => None,
                },
                _ => None,
            }
        } else {
            None
        }
    }

    /// Parses an easing function from the token stream, as executable code.
    pub fn parse(toks: &Vec<Token>, i: usize) -> (r: Option<(Self, usize)>)
        requires
            i <= toks@.len(),
        ensures
            step_view(r) == Self::sp_parse(toks_view(toks@), i as int),
            r is Some ==> i < r->Some_0.1 <= toks@.len(),
    {
        if i < toks.len() {
            match &toks[i] {
                Token::Ident(s) => match Self::parse_string(s.as_str()) {
                    Some(v) => Some((v, i + 1)),
                    None => None,
                },
                _ => None,
            }
        } else {
            None
        }
    }

    /// Appends the canonical keyword to `dest`.
    pub fn to_css(&self, dest: &mut String)
        ensures
            final(dest)@ == old(dest)@ + self.kw_text(),
    {
        match self {
            EasingFunction::Ease => dest.append("ease"),
            EasingFunction::Linear => dest.append("linear"),
            EasingFunction::EaseIn => dest.append("ease-in"),
            EasingFunction::EaseOut => dest.append("ease-out"),
            EasingFunction::EaseInOut => dest.append("ease-in-out"),
            EasingFunction::StepStart => dest.append("step-start"),
            EasingFunction::StepEnd => dest.append("step-end"),
        }
    }
}

impl Default for EasingFunction {
    /// The default easing function is `ease`.
    fn default() -> (r: Self)
        ensures
            r == EasingFunction::Ease,
    {
        EasingFunction::Ease
    }
}

/// A value for the animation-name property.
#[derive(Debug, Clone, PartialEq)]
pub enum AnimationName {
    /// The `none` keyword.
    NoneKw,
    /// An identifier referencing a keyframes rule.
    Ident(String),
    /// A quoted-string name of a keyframes rule.
    String(String),
}

/// The mathematical view of an animation name.
#[verifier::ext_equal]
pub enum NameV {
    /// The `none` keyword.
    NoneKw,
    /// An identifier reference.
    Ident(Seq<char>),
    /// A quoted-string reference.
    Str(Seq<char>),
}

impl View for AnimationName {
    type V = NameV;

    open spec fn view(&self) -> NameV {
        match self {
            AnimationName::NoneKw => NameV::NoneKw,
            AnimationName::Ident(s) => NameV::Ident(s@),
            AnimationName::String(s) => NameV::Str(s@),
        }
    }
}

/// Whether a name's text collides, up to ASCII case, with a CSS-wide keyword
/// or `none`; a quoted-string name with such text must keep its quotes.
pub open spec fn is_reserved_name_text(s: Seq<char>) -> bool {
    ci_eq(s, "none"@) || ci_eq(s, "initial"@) || ci_eq(s, "inherit"@) || ci_eq(s, "unset"@)
        || ci_eq(s, "default"@) || ci_eq(s, "revert"@) || ci_eq(s, "revert-layer"@)
}

/// Reserved-text test, as executable code.
pub fn reserved_name_text(s: &str) -> (r: bool)
    ensures
        r == is_reserved_name_text(s@),
{
    eq_ignore_case(s, "none") || eq_ignore_case(s, "initial") || eq_ignore_case(s, "inherit")
        || eq_ignore_case(s, "unset") || eq_ignore_case(s, "default") || eq_ignore_case(
        s,
        "revert",
    ) || eq_ignore_case(s, "revert-layer")
}

/// Whether an identifier may serve as a custom identifier: anything but a
/// CSS-wide keyword or `default`, compared case-insensitively.
pub open spec fn custom_ident_ok(s: Seq<char>) -> bool {
    !ci_eq(s, "initial"@) && !ci_eq(s, "inherit"@) && !ci_eq(s, "unset"@) && !ci_eq(s, "default"@)
        && !ci_eq(s, "revert"@) && !ci_eq(s, "revert-layer"@)
}

/// Custom-identifier test, as executable code.
pub fn custom_ident_allowed(s: &str) -> (r: bool)
    ensures
        r == custom_ident_ok(s@),
{
    !eq_ignore_case(s, "initial") && !eq_ignore_case(s, "inherit") && !eq_ignore_case(s, "unset")
        && !eq_ignore_case(s, "default") && !eq_ignore_case(s, "revert") && !eq_ignore_case(
        s,
        "revert-layer",
    )
}

/// The token an animation name prints as: `none` and identifier names print
/// as identifiers; a quoted-string name keeps its quotes exactly when its
/// text collides with a reserved keyword.
pub open spec fn name_tok(n: NameV) -> TokV {
    match n {
        NameV::NoneKw => TokV::Ident("none"@),
        NameV::Ident(s) => TokV::Ident(s),
        NameV::Str(s) => if is_reserved_name_text(s) {
            TokV::QuotedStr(s)
        } else {
            TokV::Ident(s)
        },
    }
}

/// The view of an animation-name parser step.
pub open spec fn name_step_view(r: Option<(AnimationName, usize)>) -> Option<(NameV, int)> {
    match r {
        Some((v, j)) => Some((v@, j as int)),
        None => None,
    }
}

impl AnimationName {
    /// Parses a name: `none`, a quoted string, or a custom identifier.
    pub open spec fn sp_parse(t: Seq<TokV>, i: int) -> Option<(NameV, int)> {
        if 0 <= i < t.len() {
            match t[i] {
                TokV::Ident(s) => if ci_eq(s, "none"@) {
                    Some((NameV::NoneKw, i + 1))
                } else if custom_ident_ok(s) {
                    Some((NameV::Ident(s), i + 1))
                } else {
                    None
                },
                TokV::QuotedStr(s) => Some((NameV::Str(s), i + 1)),
                _ => None,
            }
        } else {
            None
        }
    }

    /// Parses a name from the token stream, as executable code.
    pub fn parse(toks: &Vec<Token>, i: usize) -> (r: Option<(Self, usize)>)
        requires
            i <= toks@.len(),
        ensures
            name_step_view(r) == Self::sp_parse(toks_view(toks@), i as int),
            r is Some ==> i < r->Some_0.1 <= toks@.len(),
    {
        if i < toks.len() {
            match &toks[i] {
                Token::Ident(s) => if eq_ignore_case(s.as_str(), "none") {
                    Some((AnimationName::NoneKw, i + 1))
                } else if custom_ident_allowed(s.as_str()) {
                    Some((AnimationName::Ident(s.clone()), i + 1))
                } else {
                    None
                },
                Token::QuotedStr(s) => Some((AnimationName::String(s.clone()), i + 1)),
                _ => None,
            }
        } else {
            None
        }
    }

    /// A copy of the name.
    pub fn clone_val(&self) -> (r: Self)
        ensures
            r == *self,
    {
        match self {
            AnimationName::NoneKw => AnimationName::NoneKw,
            AnimationName::Ident(s) => AnimationName::Ident(s.clone()),
            AnimationName::String(s) => AnimationName::String(s.clone()),
        }
    }

    /// The token this name prints as.
    pub fn to_token(&self) -> (t: Token)
        ensures
            t@ == name_tok(self@),
    {
        match self {
            AnimationName::NoneKw => Token::Ident(String::from_str("none")),
            AnimationName::Ident(s) => Token::Ident(s.clone()),
            AnimationName::String(s) => if reserved_name_text(s.as_str()) {
                Token::QuotedStr(s.clone())
            } else {
                Token::Ident(s.clone())
            },
        }
    }

    /// Appends the canonical text of the name to `dest`.
    pub fn to_css(&self, dest: &mut String)
        ensures
            final(dest)@ == old(dest)@ + tok_text(name_tok(self@)),
    {
        let t = self.to_token();
        crate::tokens::push_tok_text(&t, dest);
    }
}

/// A value for the animation-iteration-count property.
#[derive(Debug, Clone, Copy, PartialEq, Eq, Structural)]
pub enum AnimationIterationCount {
    /// The animation repeats the given number of times.
    Number(i64),
    /// The animation repeats forever.
    Infinite,
}

impl Default for AnimationIterationCount {
    /// The default iteration count is the number one.
    fn default() -> (r: Self)
        ensures
            r == AnimationIterationCount::Number(1i64),
    {
        AnimationIterationCount::Number(1)
    }
}

impl AnimationIterationCount {
    /// Parses an iteration count: the `infinite` keyword or a number.
    pub open spec fn sp_parse(t: Seq<TokV>, i: int) -> Option<(AnimationIterationCount, int)> {
        if 0 <= i < t.len() {
            match t[i] {
                TokV::Ident(s) => if ci_eq(s, "infinite"@) {
                    Some((AnimationIterationCount::Infinite, i + 1))
                } else {
                    None
                },
                TokV::Number(n) => Some((AnimationIterationCount::Number(n), i + 1)),
                _ => None,
            }
        } else {
            None
        }
    }

    /// Parses an iteration count from the token stream, as executable code.
    pub fn parse(toks: &Vec<Token>, i: usize) -> (r: Option<(Self, usize)>)
        requires
            i <= toks@.len(),
        ensures
            step_view(r) == Self::sp_parse(toks_view(toks@), i as int),
            r is Some ==> i < r->Some_0.1 <= toks@.len(),
    {
        if i < toks.len() {
            match &toks[i] {
                Token::Ident(s) => if eq_ignore_case(s.as_str(), "infinite") {
                    Some((AnimationIterationCount::Infinite, i + 1))
                } else {
                    None
                },
                Token::Number(n) => Some((AnimationIterationCount::Number(*n), i + 1)),
                _ => None,
            }
        } else {
            None
        }
    }

    /// The token this iteration count prints as.
    pub open spec fn spec_tok(self) -> TokV {
        match self {
            AnimationIterationCount::Number(n) => TokV::Number(n),
            AnimationIterationCount::Infinite => TokV::Ident("infinite"@),
        }
    }

    /// Appends the canonical text of the iteration count to `dest`.
    pub fn to_css(&self, dest: &mut String)
        ensures
            final(dest)@ == old(dest)@ + tok_text(self.spec_tok()),
    {
        match self {
            AnimationIterationCount::Number(n) => push_dec_i64(dest, *n),
            AnimationIterationCount::Infinite => dest.append("infinite"),
        }
    }
}

/// A value for the animation-direction property.
#[derive(Debug, Clone, Copy, PartialEq, Eq, Structural)]
pub enum AnimationDirection {
    /// The animation plays as specified.
    Normal,
    /// The animation plays in reverse.
    Reverse,
    /// Iterations alternate between forward and reverse.
    Alternate,
    /// Iterations alternate, with reverse occurring first.
    AlternateReverse,
}

impl Default for AnimationDirection {
    /// The default direction is `normal`.
    fn default() -> (r: Self)
        ensures
            r == AnimationDirection::Normal,
    {
        AnimationDirection::Normal
    }
}

impl AnimationDirection {
    /// The canonical keyword text.
    pub open spec fn kw_text(self) -> Seq<char> {
        match self {
            AnimationDirection::Normal => "normal"@,
            AnimationDirection::Reverse => "reverse"@,
            AnimationDirection::Alternate => "alternate"@,
            AnimationDirection::AlternateReverse => "alternate-reverse"@,
        }
    }

    /// The keyword, matched case-insensitively.
    pub open spec fn sp_from_ident(s: Seq<char>) -> Option<AnimationDirection> {
        if ci_eq(s, "normal"@) {
            Some(AnimationDirection::Normal)
        } else if ci_eq(s, "reverse"@) {
            Some(AnimationDirection::Reverse)
        } else if ci_eq(s, "alternate"@) {
            Some(AnimationDirection::Alternate)
        } else if ci_eq(s, "alternate-reverse"@) {
            Some(AnimationDirection::AlternateReverse)
        } else {
            None
        }
    }

    /// Matches an identifier against the direction keywords.
    pub fn parse_string(s: &str) -> (r: Option<Self>)
        ensures
            r == Self::sp_from_ident(s@),
    {
        if eq_ignore_case(s, "normal") {
            Some(AnimationDirection::Normal)
        } else if eq_ignore_case(s, "reverse") {
            Some(AnimationDirection::Reverse)
        } else if eq_ignore_case(s, "alternate") {
            Some(AnimationDirection::Alternate)
        } else if eq_ignore_case(s, "alternate-reverse") {
            Some(AnimationDirection::AlternateReverse)
        } else {
            None
        }
    }

    /// Parses a direction: a single keyword identifier.
    pub open spec fn sp_parse(t: Seq<TokV>, i: int) -> Option<(AnimationDirection, int)> {
        if 0 <= i < t.len() {
            match t[i] {
                TokV::Ident(s) => match Self::sp_from_ident(s) {
                    Some(v) => Some((v, i + 1)),
                    None => None,
                },
                _ => None,
            }
        } else {
            None
        }
    }

    /// Parses a direction from the token stream, as executable code.
    pub fn parse(toks: &Vec<Token>, i: usize) -> (r: Option<(Self, usize)>)
        requires
            i <= toks@.len(),
        ensures
            step_view(r) == Self::sp_parse(toks_view(toks@), i as int),
            r is Some ==> i < r->Some_0.1 <= toks@.len(),
    {
        if i < toks.len() {
            match &toks[i] {
                Token::Ident(s) => match Self::parse_string(s.as_str()) {
                    Some(v) => Some((v, i + 1)),
                    None => None,
                },
                _ => None,
            }
        } else {
            None
        }
    }

    /// Appends the canonical keyword to `dest`.
    pub fn to_css(&self, dest: &mut String)
        ensures
            final(dest)@ == old(dest)@ + self.kw_text(),
    {
        match self {
            AnimationDirection::Normal => dest.append("normal"),
            AnimationDirection::Reverse => dest.append("reverse"),
            AnimationDirection::Alternate => dest.append("alternate"),
            AnimationDirection::AlternateReverse => dest.append("alternate-reverse"),
        }
    }
}

/// A value for the animation-play-state property.
#[derive(Debug, Clone, Copy, PartialEq, Eq, Structural)]
pub enum AnimationPlayState {
    /// The animation is playing.
    Running,
    /// The animation is paused.
    Paused,
}

impl Default for AnimationPlayState {
    /// The default play state is `running`.
    fn default() -> (r: Self)
        ensures
            r == AnimationPlayState::Running,
    {
        AnimationPlayState::Running
    }
}

impl AnimationPlayState {
    /// The canonical keyword text.
    pub open spec fn kw_text(self) -> Seq<char> {
        match self {
            AnimationPlayState::Running => "running"@,
            AnimationPlayState::Paused => "paused"@,
        }
    }

    /// The keyword, matched case-insensitively.
    pub open spec fn sp_from_ident(s: Seq<char>) -> Option<AnimationPlayState> {
        if ci_eq(s, "running"@) {
            Some(AnimationPlayState::Running)
        } else if ci_eq(s, "paused"@) {
            Some(AnimationPlayState::Paused)
        } else {
            None
        }
    }

    /// Matches an identifier against the play-state keywords.
    pub fn parse_string(s: &str) -> (r: Option<Self>)
        ensures
            r == Self::sp_from_ident(s@),
    {
        if eq_ignore_case(s, "running") {
            Some(AnimationPlayState::Running)
        } else if eq_ignore_case(s, "paused") {
            Some(AnimationPlayState::Paused)
        } else {
            None
        }
    }

    /// Parses a play state: a single keyword identifier.
    pub open spec fn sp_parse(t: Seq<TokV>, i: int) -> Option<(AnimationPlayState, int)> {
        if 0 <= i < t.len() {
            match t[i] {
                TokV::Ident(s) => match Self::sp_from_ident(s) {
                    Some(v) => Some((v, i + 1)),
                    None => None,
                },
                _ => None,
            }
        } else {
            None
        }
    }

    /// Parses a play state from the token stream, as executable code.
    pub fn parse(toks: &Vec<Token>, i: usize) -> (r: Option<(Self, usize)>)
        requires
            i <= toks@.len(),
        ensures
            step_view(r) == Self::sp_parse(toks_view(toks@), i as int),
            r is Some ==> i < r->Some_0.1 <= toks@.len(),
    {
        if i < toks.len() {
            match &toks[i] {
                Token::Ident(s) => match Self::parse_string(s.as_str()) {
                    Some(v) => Some((v, i + 1)),
                    None => None,
                },
                _ => None,
            }
        } else {
            None
        }
    }

    /// Appends the canonical keyword to `dest`.
    pub fn to_css(&self, dest: &mut String)
        ensures
            final(dest)@ == old(dest)@ + self.kw_text(),
    {
        match self {
            AnimationPlayState::Running => dest.append("running"),
            AnimationPlayState::Paused => dest.append("paused"),
        }
    }
}

/// A value for the animation-fill-mode property.
#[derive(Debug, Clone, Copy, PartialEq, Eq, Structural)]
pub enum AnimationFillMode {
    /// The animation has no effect while not playing.
    NoneKw,
    /// After the animation, the ending values apply.
    Forwards,
    /// Before the animation, the starting values apply.
    Backwards,
    /// Both forwards and backwards apply.
    Both,
}

impl Default for AnimationFillMode {
    /// The default fill mode is `none`.
    fn default() -> (r: Self)
        ensures
            r == AnimationFillMode::NoneKw,
    {
        AnimationFillMode::NoneKw
    }
}

impl AnimationFillMode {
    /// The canonical keyword text.
    pub open spec fn kw_text(self) -> Seq<char> {
        match self {
            AnimationFillMode::NoneKw => "none"@,
            AnimationFillMode::Forwards => "forwards"@,
            AnimationFillMode::Backwards => "backwards"@,
            AnimationFillMode::Both => "both"@,
        }
    }

    /// The keyword, matched case-insensitively.
    pub open spec fn sp_from_ident(s: Seq<char>) -> Option<AnimationFillMode> {
        if ci_eq(s, "none"@) {
            Some(AnimationFillMode::NoneKw)
        } else if ci_eq(s, "forwards"@) {
            Some(AnimationFillMode::Forwards)
        } else if ci_eq(s, "backwards"@) {
            Some(AnimationFillMode::Backwards)
        } else if ci_eq(s, "both"@) {
            Some(AnimationFillMode::Both)
        } else {
            None
        }
    }

    /// Matches an identifier against the fill-mode keywords.
    pub fn parse_string(s: &str) -> (r: Option<Self>)
        ensures
            r == Self::sp_from_ident(s@),
    {
        if eq_ignore_case(s, "none") {
            Some(AnimationFillMode::NoneKw)
        } else if eq_ignore_case(s, "forwards") {
            Some(AnimationFillMode::Forwards)
        } else if eq_ignore_case(s, "backwards") {
            Some(AnimationFillMode::Backwards)
        } else if eq_ignore_case(s, "both") {
            Some(AnimationFillMode::Both)
        } else {
            None
        }
    }

    /// Parses a fill mode: a single keyword identifier.
    pub open spec fn sp_parse(t: Seq<TokV>, i: int) -> Option<(AnimationFillMode, int)> {
        if 0 <= i < t.len() {
            match t[i] {
                TokV::Ident(s) => match Self::sp_from_ident(s) {
                    Some(v) => Some((v, i + 1)),
                    None => None,
                },
                _ => None,
            }
        } else {
            None
        }
    }

    /// Parses a fill mode from the token stream, as executable code.
    pub fn parse(toks: &Vec<Token>, i: usize) -> (r: Option<(Self, usize)>)
        requires
            i <= toks@.len(),
        ensures
            step_view(r) == Self::sp_parse(toks_view(toks@), i as int),
            r is Some ==> i < r->Some_0.1 <= toks@.len(),
    {
        if i < toks.len() {
            match &toks[i] {
                Token::Ident(s) => match Self::parse_string(s.as_str()) {
                    Some(v) => Some((v, i + 1)),
                    None => None,
                },
                _ => None,
            }
        } else {
            None
        }
    }

    /// Appends the canonical keyword to `dest`.
    pub fn to_css(&self, dest: &mut String)
        ensures
            final(dest)@ == old(dest)@ + self.kw_text(),
    {
        match self {
            AnimationFillMode::NoneKw => dest.append("none"),
            AnimationFillMode::Forwards => dest.append("forwards"),
            AnimationFillMode::Backwards => dest.append("backwards"),
            AnimationFillMode::Both => dest.append("both"),
        }
    }
}

/// A value for the animation-composition property.
#[derive(Debug, Clone, Copy, PartialEq, Eq, Structural)]
pub enum AnimationComposition {
    /// The effect value replaces the underlying value.
    Replace,
    /// The effect value is added to the underlying value.
    Add,
    /// The effect value is accumulated onto the underlying value.
    Accumulate,
}

impl AnimationComposition {
    /// The canonical keyword text.
    pub open spec fn kw_text(self) -> Seq<char> {
        match self {
            AnimationComposition::Replace => "replace"@,
            AnimationComposition::Add => "add"@,
            AnimationComposition::Accumulate => "accumulate"@,
        }
    }

    /// The keyword, matched case-insensitively.
    pub open spec fn sp_from_ident(s: Seq<char>) -> Option<AnimationComposition> {
        if ci_eq(s, "replace"@) {
            Some(AnimationComposition::Replace)
        } else if ci_eq(s, "add"@) {
            Some(AnimationComposition::Add)
        } else if ci_eq(s, "accumulate"@) {
            Some(AnimationComposition::Accumulate)
        } else {
            None
        }
    }

    /// Matches an identifier against the composition keywords.
    pub fn parse_string(s: &str) -> (r: Option<Self>)
        ensures
            r == Self::sp_from_ident(s@),
    {
        if eq_ignore_case(s, "replace") {
            Some(AnimationComposition::Replace)
        } else if eq_ignore_case(s, "add") {
            Some(AnimationComposition::Add)
        } else if eq_ignore_case(s, "accumulate") {
            Some(AnimationComposition::Accumulate)
        } else {
            None
        }
    }

    /// Parses a composition value: a single keyword identifier.
    pub open spec fn sp_parse(t: Seq<TokV>, i: int) -> Option<(AnimationComposition, int)> {
        if 0 <= i < t.len() {
            match t[i] {
                TokV::Ident(s) => match Self::sp_from_ident(s) {
                    Some(v) => Some((v, i + 1)),
                    None => None,
                },
                _ => None,
            }
        } else {
            None
        }
    }

    /// Parses a composition value from the token stream, as executable code.
    pub fn parse(toks: &Vec<Token>, i: usize) -> (r: Option<(Self, usize)>)
        requires
            i <= toks@.len(),
        ensures
            step_view(r) == Self::sp_parse(toks_view(toks@), i as int),
            r is Some ==> i < r->Some_0.1 <= toks@.len(),
    {
        if i < toks.len() {
            match &toks[i] {
                Token::Ident(s) => match Self::parse_string(s.as_str()) {
                    Some(v) => Some((v, i + 1)),
                    None => None,
                },
                _ => None,
            }
        } else {
            None
        }
    }

    /// Appends the canonical keyword to `dest`.
    pub fn to_css(&self, dest: &mut String)
        ensures
            final(dest)@ == old(dest)@ + self.kw_text(),
    {
        match self {
            AnimationComposition::Replace => dest.append("replace"),
            AnimationComposition::Add => dest.append("add"),
            AnimationComposition::Accumulate => dest.append("accumulate"),
        }
    }
}

} // verus!

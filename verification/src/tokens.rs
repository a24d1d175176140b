//! The token model: one value of the already-tokenized CSS stream that the
//! external tokenizer hands in, its mathematical view, and the canonical
//! textual rendering of a token sequence.

use vstd::prelude::*;
use crate::text::{int_digits, push_dec_i64};
use crate::values::Time;

verus! {

/// One token of a CSS value stream.  The tokenizer is an external
/// collaborator: this crate never sees raw bytes, only these values.
/// A `Function` token opens a parenthesized block that runs to the matching
/// `CloseParen`.
#[derive(Debug, Clone, PartialEq)]
pub enum Token {
    /// An identifier.
    Ident(String),
    /// A quoted string (quotes not included in the carried text).
    QuotedStr(String),
    /// A plain number.
    Number(i64),
    /// A duration, normalized by the tokenizer to milliseconds.
    Time(Time),
    /// A percentage.
    Percentage(i64),
    /// A length, normalized by the tokenizer to whole pixels.
    Length(i64),
    /// A function name followed by its opening parenthesis.
    Function(String),
    /// The closing parenthesis of a function block.
    CloseParen,
    /// A comma separating list items.
    Comma,
}

/// The mathematical view of a token.
#[verifier::ext_equal]
pub enum TokV {
    /// An identifier.
    Ident(Seq<char>),
    /// A quoted string.
    QuotedStr(Seq<char>),
    /// A plain number.
    Number(i64),
    /// A duration in milliseconds.
    Time(Time),
    /// A percentage.
    Percentage(i64),
    /// A length in whole pixels.
    Length(i64),
    /// A function name opening a block.
    Function(Seq<char>),
    /// The closing parenthesis of a function block.
    CloseParen,
    /// A comma separating list items.
    Comma,
}

impl View for Token {
    type V = TokV;

    open spec fn view(&self) -> TokV {
        match self {
            Token::Ident(s) => TokV::Ident(s@),
            Token::QuotedStr(s) => TokV::QuotedStr(s@),
            Token::Number(n) => TokV::Number(*n),
            Token::Time(t) => TokV::Time(*t),
            Token::Percentage(n) => TokV::Percentage(*n),
            Token::Length(n) => TokV::Length(*n),
            Token::Function(s) => TokV::Function(s@),
            Token::CloseParen => TokV::CloseParen,
            Token::Comma => TokV::Comma,
        }
    }
}

/// The views of a token sequence.
pub open spec fn toks_view(ts: Seq<Token>) -> Seq<TokV> {
    ts.map_values(|t: Token| t@)
}

/// The canonical text of one token.
pub open spec fn tok_text(t: TokV) -> Seq<char> {
    match t {
        TokV::Ident(s) => s,
        TokV::QuotedStr(s) => seq!['"'] + s + seq!['"'],
        TokV::Number(n) => int_digits(n as int),
        TokV::Time(tm) => tm.spec_text(),
        TokV::Percentage(n) => int_digits(n as int) + seq!['%'],
        TokV::Length(n) => int_digits(n as int) + seq!['p', 'x'],
        TokV::Function(s) => s + seq!['('],
        TokV::CloseParen => seq![')'],
        TokV::Comma => seq![','],
    }
}

/// The separator between two adjacent tokens: a single space, except after
/// an opening parenthesis and before a closing parenthesis or a comma.
pub open spec fn tok_sep(prev: TokV, cur: TokV) -> Seq<char> {
    if prev is Function || cur is CloseParen || cur is Comma {
        Seq::<char>::empty()
    } else {
        seq![' ']
    }
}

/// The canonical text of a token sequence.
pub open spec fn render(ts: Seq<TokV>) -> Seq<char>
    decreases ts.len(),
{
    if ts.len() == 0 {
        Seq::<char>::empty()
    } else if ts.len() == 1 {
        tok_text(ts[0])
    } else {
        render(ts.drop_last()) + tok_sep(ts[ts.len() - 2], ts.last()) + tok_text(ts.last())
    }
}

/// The view of one parser step's result: the parsed value together with the
/// position just past the tokens it consumed, or nothing when the sub-grammar
/// does not match.
pub open spec fn step_view<V>(r: Option<(V, usize)>) -> Option<(V, int)> {
    match r {
        Some((v, j)) => Some((v, j as int)),
        None => None,
    }
}

/// Appends the canonical text of one token to `dest`.
pub fn push_tok_text(t: &Token, dest: &mut String)
    ensures
        final(dest)@ == old(dest)@ + tok_text(t@),
{
    match t {
        Token::Ident(s) => {
            dest.append(s.as_str());
        },
        Token::QuotedStr(s) => {
            proof {
                reveal_strlit("\"");
                assert("\""@ =~= seq!['"']);
            }
            dest.append("\"");
            dest.append(s.as_str());
            dest.append("\"");
            assert(dest@ =~= old(dest)@ + tok_text(t@));
        },
        Token::Number(n) => {
            push_dec_i64(dest, *n);
        },
        Token::Time(tm) => {
            tm.to_css(dest);
        },
        Token::Percentage(n) => {
            push_dec_i64(dest, *n);
            proof {
                reveal_strlit("%");
                assert("%"@ =~= seq!['%']);
            }
            dest.append("%");
            assert(dest@ =~= old(dest)@ + tok_text(t@));
        },
        Token::Length(n) => {
            push_dec_i64(dest, *n);
            proof {
                reveal_strlit("px");
                assert("px"@ =~= seq!['p', 'x']);
            }
            dest.append("px");
            assert(dest@ =~= old(dest)@ + tok_text(t@));
        },
        Token::Function(s) => {
            dest.append(s.as_str());
            proof {
                reveal_strlit("(");
                assert("("@ =~= seq!['(']);
            }
            dest.append("(");
            assert(dest@ =~= old(dest)@ + tok_text(t@));
        },
        Token::CloseParen => {
            proof {
                reveal_strlit(")");
                assert(")"@ =~= seq![')']);
            }
            dest.append(")");
        },
        Token::Comma => {
            proof {
                reveal_strlit(",");
                assert(","@ =~= seq![',']);
            }
            dest.append(",");
        },
    }
}

/// Appends the canonical text of a token sequence to `dest`.
pub fn render_tokens(toks: &Vec<Token>, dest: &mut String)
    ensures
        final(dest)@ == old(dest)@ + render(toks_view(toks@)),
{
    let ghost tv = toks_view(toks@);
    let mut i: usize = 0;
    while i < toks.len()
        invariant
            i <= toks@.len(),
            tv == toks_view(toks@),
            tv.len() == toks@.len(),
            dest@ == old(dest)@ + render(tv.take(i as int)),
        decreases toks@.len() - i,
    {
        if i > 0 {
            let needs_space = match (&toks[i - 1], &toks[i]) {
                (Token::Function(_), _) => false,
                (_, Token::CloseParen) => false,
                (_, Token::Comma) => false,
                _ => true,
            };
            if needs_space {
                proof {
                    reveal_strlit(" ");
                    assert(" "@ =~= seq![' ']);
                }
                dest.append(" ");
            }
            proof {
                assert(tok_sep(tv[i as int - 1], tv[i as int]) == if needs_space {
                    seq![' ']
                } else {
                    Seq::<char>::empty()
                });
            }
        }
        push_tok_text(&toks[i], dest);
        proof {
            let iplus = i + 1 as int;
            assert(tv.take(iplus).drop_last() =~= tv.take(i as int));
            assert(tv.take(iplus).last() == tv[i as int]);
            if i > 0 {
                assert(tv.take(iplus)[iplus - 2] == tv[i as int - 1]);
            }
            assert(dest@ =~= old(dest)@ + render(tv.take(iplus)));
        }
        i = i + 1;
    }
    proof {
        assert(tv.take(toks@.len() as int) =~= tv);
    }
}

} // verus!

//! Splitting a raw input line into shell words, honoring quoting and
//! escaping: whitespace outside quotes separates words; single quotes make
//! everything literal; double quotes keep words together while `\` escapes
//! `\`, `"` and `$`; outside quotes `\` escapes the next character.
use vstd::prelude::*;

use crate::ast::ParseError;
use crate::strutil::{chars_to_string, str_to_chars};

verus! {

/// Quoting state of the scan.
#[derive(Debug, PartialEq, Eq, Structural, Clone, Copy)]
pub enum QuoteState {
    Unquoted,
    Single,
    Double,
}

/// Close the pending word, if one was started.
pub open spec fn flush_word(acc: Seq<Seq<char>>, cur: Option<Seq<char>>) -> Seq<Seq<char>> {
    match cur {
        Option::None => acc,
        Option::Some(w) => acc.push(w),
    }
}

/// The pending word, starting one if none is open yet.
pub open spec fn started(cur: Option<Seq<char>>) -> Seq<char> {
    match cur {
        Option::None => Seq::empty(),
        Option::Some(w) => w,
    }
}

/// The tokenization of `s` from position `i` on, given the quoting state,
/// the pending word and the words already produced. `None` is an
/// unterminated quote.
pub open spec fn tokenize_from(
    s: Seq<char>,
    i: int,
    st: QuoteState,
    cur: Option<Seq<char>>,
    acc: Seq<Seq<char>>,
) -> Option<Seq<Seq<char>>>
    decreases s.len() - i,
{
    if i < 0 || i >= s.len() {
        match st {
            QuoteState::Unquoted => Some(flush_word(acc, cur)),
            _ => None,
        }
    } else {
        let c = s[i];
        match st {
            QuoteState::Unquoted => {
                if c == ' ' || c == '\t' {
                    tokenize_from(s, i + 1, QuoteState::Unquoted, Option::None, flush_word(acc, cur))
                } else if c == '\'' {
                    tokenize_from(s, i + 1, QuoteState::Single, Option::Some(started(cur)), acc)
                } else if c == '"' {
                    tokenize_from(s, i + 1, QuoteState::Double, Option::Some(started(cur)), acc)
                } else if c == '\\' && i + 1 < s.len() {
                    tokenize_from(s, i + 2, QuoteState::Unquoted, Option::Some(started(cur).push(s[i + 1])), acc)
                } else {
                    tokenize_from(s, i + 1, QuoteState::Unquoted, Option::Some(started(cur).push(c)), acc)
                }
            },
            QuoteState::Single => {
                if c == '\'' {
                    tokenize_from(s, i + 1, QuoteState::Unquoted, cur, acc)
                } else {
                    tokenize_from(s, i + 1, QuoteState::Single, Option::Some(started(cur).push(c)), acc)
                }
            },
            QuoteState::Double => {
                if c == '"' {
                    tokenize_from(s, i + 1, QuoteState::Unquoted, cur, acc)
                } else if c == '\\' && i + 1 < s.len() && (s[i + 1] == '\\' || s[i + 1] == '"' || s[i + 1] == '$') {
                    tokenize_from(s, i + 2, QuoteState::Double, Option::Some(started(cur).push(s[i + 1])), acc)
                } else {
                    tokenize_from(s, i + 1, QuoteState::Double, Option::Some(started(cur).push(c)), acc)
                }
            },
        }
    }
}

/// The word sequence an input line denotes, or `None` on an unterminated quote.
pub open spec fn tokenize_spec(s: Seq<char>) -> Option<Seq<Seq<char>>> {
    tokenize_from(s, 0, QuoteState::Unquoted, Option::None, Seq::empty())
}

/// Split an input line into shell words.
pub fn tokenize(input: &str) -> (r: Result<Vec<String>, ParseError>)
    ensures
        match r {
            Result::Ok(toks) => tokenize_spec(input@) == Some(toks.deep_view()),
            Result::Err(e) => tokenize_spec(input@) is None && e == ParseError::UnterminatedQuote,
        },
{
    let chars = str_to_chars(input);
    let n = chars.len();
    let mut i: usize = 0;
    let mut st = QuoteState::Unquoted;
    let mut cur: Option<Vec<char>> = Option::None;
    let mut acc: Vec<String> = Vec::new();
    proof {
        assert(acc.deep_view() =~= Seq::<Seq<char>>::empty());
    }
    while i < n
        invariant
            n == chars@.len(),
            chars@ == input@,
            i <= n,
            tokenize_from(input@, i as int, st, cur.deep_view(), acc.deep_view())
                == tokenize_spec(input@),
        decreases n - i,
    {
        let c = chars[i];
        match st {
            QuoteState::Unquoted => {
                if c == ' ' || c == '\t' {
                    flush_pending(&mut acc, &mut cur);
                    i = i + 1;
                } else if c == '\'' {
                    start_pending(&mut cur);
                    st = QuoteState::Single;
                    i = i + 1;
                } else if c == '"' {
                    start_pending(&mut cur);
                    st = QuoteState::Double;
                    i = i + 1;
                } else if c == '\\' && i + 1 < n {
                    push_pending(&mut cur, chars[i + 1]);
                    i = i + 2;
                } else {
                    push_pending(&mut cur, c);
                    i = i + 1;
                }
            },
            QuoteState::Single => {
                if c == '\'' {
                    st = QuoteState::Unquoted;
                    i = i + 1;
                } else {
                    push_pending(&mut cur, c);
                    i = i + 1;
                }
            },
            QuoteState::Double => {
                if c == '"' {
                    st = QuoteState::Unquoted;
                    i = i + 1;
                } else if c == '\\' && i + 1 < n {
                    let d = chars[i + 1];
                    if d == '\\' || d == '"' || d == '$' {
                        push_pending(&mut cur, d);
                        i = i + 2;
                    } else {
                        push_pending(&mut cur, c);
                        i = i + 1;
                    }
                } else {
                    push_pending(&mut cur, c);
                    i = i + 1;
                }
            },
        }
    }
    match st {
        QuoteState::Unquoted => {
            flush_pending(&mut acc, &mut cur);
            Result::Ok(acc)
        },
        QuoteState::Single => Result::Err(ParseError::UnterminatedQuote),
        QuoteState::Double => Result::Err(ParseError::UnterminatedQuote),
    }
}

/// Close the pending word into the accumulator, as `flush_word` does.
fn flush_pending(acc: &mut Vec<String>, cur: &mut Option<Vec<char>>)
    ensures
        final(acc).deep_view() == flush_word(old(acc).deep_view(), old(cur).deep_view()),
        final(cur).deep_view() == Option::<Seq<char>>::None,
{
    let ghost pre = acc.deep_view();
    let taken = cur.take();
    match taken {
        Option::Some(w) => {
            proof {
                assert(w.deep_view() =~= w@);
            }
            let s = chars_to_string(&w);
            acc.push(s);
            proof {
                assert(acc.deep_view() =~= pre.push(w@));
            }
        },
        Option::None => {
        },
    }
}

/// Make sure a pending word is open, as `started` does.
fn start_pending(cur: &mut Option<Vec<char>>)
    ensures
        final(cur).deep_view() == Option::Some(started(old(cur).deep_view())),
{
    match cur {
        Option::Some(_) => {
        },
        Option::None => {
            *cur = Option::Some(Vec::new());
            proof {
                assert(started(old(cur).deep_view()) =~= Seq::<char>::empty());
            }
        },
    }
}

/// Append one character to the pending word, opening it if need be.
fn push_pending(cur: &mut Option<Vec<char>>, c: char)
    ensures
        final(cur).deep_view() == Option::Some(started(old(cur).deep_view()).push(c)),
{
    let mut w = match cur.take() {
        Option::Some(w) => w,
        Option::None => Vec::new(),
    };
    proof {
        assert(w.deep_view() =~= started(old(cur).deep_view()));
    }
    w.push(c);
    proof {
        assert(w.deep_view() =~= started(old(cur).deep_view()).push(c));
    }
    *cur = Option::Some(w);
}

} // verus!

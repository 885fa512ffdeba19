//! Grouping shell words into a pipeline of command segments: `|` separates
//! segments; inside a segment, redirection operators consume the following
//! word as their target, everything else is an argument.
use vstd::prelude::*;

use crate::ast::{CommandSegment, ParseError, Pipeline, RedirView, Redirection, SegmentView, StreamKind};
use crate::strutil::str_eq;
use crate::tokenizer::{tokenize, tokenize_spec};

verus! {

/// Which redirection, if any, a word denotes: the stream and the append flag.
pub open spec fn redir_kind(t: Seq<char>) -> Option<(StreamKind, bool)> {
    if t == ">"@ || t == "1>"@ {
        Some((StreamKind::StdOut, false))
    } else if t == ">>"@ || t == "1>>"@ {
        Some((StreamKind::StdOut, true))
    } else if t == "2>"@ {
        Some((StreamKind::StdErr, false))
    } else if t == "2>>"@ {
        Some((StreamKind::StdErr, true))
    } else if t == "<"@ {
        Some((StreamKind::StdIn, false))
    } else {
        None
    }
}

/// Classify the words of one segment from position `i` on into arguments
/// and redirections; a redirection operator must be followed by its target.
pub open spec fn parse_segment_from(
    tokens: Seq<Seq<char>>,
    i: int,
    args: Seq<Seq<char>>,
    redirs: Seq<RedirView>,
) -> Result<(Seq<Seq<char>>, Seq<RedirView>), ParseError>
    decreases tokens.len() - i,
{
    if i < 0 || i >= tokens.len() {
        Ok((args, redirs))
    } else {
        match redir_kind(tokens[i]) {
            Some(k) => {
                if i + 1 < tokens.len() {
                    parse_segment_from(
                        tokens,
                        i + 2,
                        args,
                        redirs.push(RedirView { stream: k.0, append: k.1, path: tokens[i + 1] }),
                    )
                } else {
                    Err(ParseError::MissingRedirectionTarget)
                }
            },
            None => parse_segment_from(tokens, i + 1, args.push(tokens[i]), redirs),
        }
    }
}

/// The segment a non-empty word group denotes: first word is the command,
/// the rest are classified by `parse_segment_from`.
pub open spec fn parse_segment_spec(tokens: Seq<Seq<char>>) -> Result<SegmentView, ParseError> {
    if tokens.len() == 0 {
        Err(ParseError::EmptySegment)
    } else {
        match parse_segment_from(tokens, 1, Seq::empty(), Seq::empty()) {
            Ok(p) => Ok(SegmentView { cmd: tokens[0], args: p.0, redirections: p.1 }),
            Err(e) => Err(e),
        }
    }
}

/// Split a word sequence on `|` from position `i` on, parsing each group;
/// a group with no words at all is an empty segment.
pub open spec fn parse_pipeline_from(
    tokens: Seq<Seq<char>>,
    i: int,
    cur: Seq<Seq<char>>,
    segs: Seq<SegmentView>,
) -> Result<Seq<SegmentView>, ParseError>
    decreases tokens.len() - i,
{
    if i < 0 || i >= tokens.len() {
        match parse_segment_spec(cur) {
            Ok(sv) => Ok(segs.push(sv)),
            Err(e) => Err(e),
        }
    } else if tokens[i] == "|"@ {
        match parse_segment_spec(cur) {
            Ok(sv) => parse_pipeline_from(tokens, i + 1, Seq::empty(), segs.push(sv)),
            Err(e) => Err(e),
        }
    } else {
        parse_pipeline_from(tokens, i + 1, cur.push(tokens[i]), segs)
    }
}

/// The pipeline a word sequence denotes.
pub open spec fn parse_pipeline_tokens(tokens: Seq<Seq<char>>) -> Result<Seq<SegmentView>, ParseError> {
    parse_pipeline_from(tokens, 0, Seq::empty(), Seq::empty())
}

/// The pipeline an input line denotes: tokenize, then group.
pub open spec fn parse_pipeline_spec(s: Seq<char>) -> Result<Seq<SegmentView>, ParseError> {
    match tokenize_spec(s) {
        None => Err(ParseError::UnterminatedQuote),
        Some(toks) => parse_pipeline_tokens(toks),
    }
}

/// Build the `Redirection` a classified operator and target denote.
fn make_redirection(stream: StreamKind, append: bool, path: String) -> (r: Redirection)
    requires
        stream is StdIn ==> !append,
    ensures
        r@ == (RedirView { stream, append, path: path@ }),
{
    match stream {
        StreamKind::StdOut => if append {
            Redirection::StdoutAppend(path)
        } else {
            Redirection::Stdout(path)
        },
        StreamKind::StdErr => if append {
            Redirection::StderrAppend(path)
        } else {
            Redirection::Stderr(path)
        },
        StreamKind::StdIn => Redirection::Stdin(path),
    }
}

/// Classify one word as a redirection operator, executably.
fn redir_kind_exec(t: &str) -> (r: Option<(StreamKind, bool)>)
    ensures
        r == redir_kind(t@),
{
    if str_eq(t, ">") || str_eq(t, "1>") {
        Some((StreamKind::StdOut, false))
    } else if str_eq(t, ">>") || str_eq(t, "1>>") {
        Some((StreamKind::StdOut, true))
    } else if str_eq(t, "2>") {
        Some((StreamKind::StdErr, false))
    } else if str_eq(t, "2>>") {
        Some((StreamKind::StdErr, true))
    } else if str_eq(t, "<") {
        Some((StreamKind::StdIn, false))
    } else {
        None
    }
}

/// Parse one word group into a command segment: command name, arguments,
/// redirections, in order.
pub fn parse_command_segment(tokens: &[String]) -> (r: Result<CommandSegment, ParseError>)
    ensures
        match r {
            Result::Ok(seg) => parse_segment_spec(tokens.deep_view()) == Ok::<SegmentView, ParseError>(seg@),
            Result::Err(e) => parse_segment_spec(tokens.deep_view()) == Err::<SegmentView, ParseError>(e),
        },
{
    let ghost tv = tokens.deep_view();
    if tokens.len() == 0 {
        return Result::Err(ParseError::EmptySegment);
    }
    let cmd = tokens[0].clone();
    let mut args: Vec<String> = Vec::new();
    let mut redirs: Vec<Redirection> = Vec::new();
    let mut i: usize = 1;
    proof {
        assert(args.deep_view() =~= Seq::<Seq<char>>::empty());
        assert(redirs.deep_view() =~= Seq::<RedirView>::empty());
    }
    while i < tokens.len()
        invariant
            tv == tokens.deep_view(),
            1 <= i <= tv.len(),
            parse_segment_from(tv, i as int, args.deep_view(), redirs.deep_view())
                == parse_segment_from(tv, 1, Seq::empty(), Seq::empty()),
        decreases tv.len() - i,
    {
        let ghost pre_args = args.deep_view();
        let ghost pre_redirs = redirs.deep_view();
        match redir_kind_exec(tokens[i].as_str()) {
            Option::Some(k) => {
                if i + 1 < tokens.len() {
                    let path = tokens[i + 1].clone();
                    redirs.push(make_redirection(k.0, k.1, path));
                    proof {
                        assert(redirs.deep_view() =~= pre_redirs.push(
                            RedirView { stream: k.0, append: k.1, path: tv[i + 1] },
                        ));
                    }
                    i = i + 2;
                } else {
                    return Result::Err(ParseError::MissingRedirectionTarget);
                }
            },
            Option::None => {
                args.push(tokens[i].clone());
                proof {
                    assert(args.deep_view() =~= pre_args.push(tv[i as int]));
                }
                i = i + 1;
            },
        }
    }
    let seg = CommandSegment { cmd, args, redirections: redirs };
    Result::Ok(seg)
}

/// Parse an input line into a pipeline of command segments.
pub fn parse_pipeline(input: &str) -> (r: Result<Pipeline, ParseError>)
    ensures
        match r {
            Result::Ok(p) => parse_pipeline_spec(input@) == Ok::<Seq<SegmentView>, ParseError>(p@)
                && p.wf(),
            Result::Err(e) => parse_pipeline_spec(input@) == Err::<Seq<SegmentView>, ParseError>(e),
        },
{
    let tokens = match tokenize(input) {
        Result::Ok(t) => t,
        Result::Err(e) => {
            return Result::Err(e);
        },
    };
    let ghost tv = tokens.deep_view();
    let mut cur: Vec<String> = Vec::new();
    let mut segs: Vec<CommandSegment> = Vec::new();
    let mut i: usize = 0;
    proof {
        assert(cur.deep_view() =~= Seq::<Seq<char>>::empty());
        assert(segs.deep_view() =~= Seq::<SegmentView>::empty());
    }
    while i < tokens.len()
        invariant
            tv == tokens.deep_view(),
            tokenize_spec(input@) == Some(tv),
            i <= tv.len(),
            parse_pipeline_from(tv, i as int, cur.deep_view(), segs.deep_view())
                == parse_pipeline_tokens(tv),
        decreases tv.len() - i,
    {
        let ghost pre_cur = cur.deep_view();
        let ghost pre_segs = segs.deep_view();
        if str_eq(tokens[i].as_str(), "|") {
            match parse_command_segment(cur.as_slice()) {
                Result::Ok(seg) => {
                    segs.push(seg);
                    proof {
                        assert(segs.deep_view() =~= pre_segs.push(seg@));
                    }
                    cur = Vec::new();
                    proof {
                        assert(cur.deep_view() =~= Seq::<Seq<char>>::empty());
                    }
                },
                Result::Err(e) => {
                    proof {
                        assert(parse_pipeline_tokens(tv) == Err::<Seq<SegmentView>, ParseError>(e));
                    }
                    return Result::Err(e);
                },
            }
        } else {
            cur.push(tokens[i].clone());
            proof {
                assert(cur.deep_view() =~= pre_cur.push(tv[i as int]));
            }
        }
        i = i + 1;
    }
    let ghost pre_segs = segs.deep_view();
    match parse_command_segment(cur.as_slice()) {
        Result::Ok(seg) => {
            segs.push(seg);
            proof {
                assert(segs.deep_view() =~= pre_segs.push(seg@));
            }
            let p = Pipeline { segments: segs };
            Result::Ok(p)
        },
        Result::Err(e) => Result::Err(e),
    }
}

} // verus!

use rshell::ast::{ParseError, Redirection};
use rshell::{parse_command_segment, parse_pipeline, str_eq, tokenize};

#[test]
fn tokenize_single_quotes_keep_spaces() {
    let toks = tokenize("'a b' c").unwrap();
    assert_eq!(toks, vec!["a b".to_string(), "c".to_string()]);
}

#[test]
fn tokenize_double_quote_escapes_quote() {
    let toks = tokenize("\"a\\\"b\"").unwrap();
    assert_eq!(toks, vec!["a\"b".to_string()]);
}

#[test]
fn tokenize_unterminated_quote_fails() {
    assert_eq!(tokenize("'abc"), Err(ParseError::UnterminatedQuote));
    assert_eq!(tokenize("\"abc"), Err(ParseError::UnterminatedQuote));
}

#[test]
fn tokenize_empty_input_is_empty() {
    assert_eq!(tokenize("").unwrap(), Vec::<String>::new());
    assert_eq!(tokenize("   \t ").unwrap(), Vec::<String>::new());
}

#[test]
fn tokenize_collapses_whitespace() {
    let toks = tokenize("a   b\t c").unwrap();
    assert_eq!(toks, vec!["a".to_string(), "b".to_string(), "c".to_string()]);
}

#[test]
fn tokenize_backslash_outside_quotes() {
    let toks = tokenize("a\\ b").unwrap();
    assert_eq!(toks, vec!["a b".to_string()]);
    let toks = tokenize("\\'x").unwrap();
    assert_eq!(toks, vec!["'x".to_string()]);
}

#[test]
fn tokenize_double_quote_backslash_rules() {
    // `\\` and `\$` inside double quotes escape; before others both stay.
    let toks = tokenize("\"a\\\\b\"").unwrap();
    assert_eq!(toks, vec!["a\\b".to_string()]);
    let toks = tokenize("\"a\\$b\"").unwrap();
    assert_eq!(toks, vec!["a$b".to_string()]);
    let toks = tokenize("\"a\\xb\"").unwrap();
    assert_eq!(toks, vec!["a\\xb".to_string()]);
}

#[test]
fn tokenize_empty_quoted_word() {
    let toks = tokenize("'' x").unwrap();
    assert_eq!(toks, vec!["".to_string(), "x".to_string()]);
}

#[test]
fn tokenize_adjacent_quotes_join() {
    let toks = tokenize("a'b c'\"d\"").unwrap();
    assert_eq!(toks, vec!["ab cd".to_string()]);
}

#[test]
fn parse_two_segment_pipeline() {
    let p = parse_pipeline("echo hi | cat").unwrap();
    assert_eq!(p.segments.len(), 2);
    assert_eq!(p.segments[0].cmd, "echo");
    assert_eq!(p.segments[0].args, vec!["hi".to_string()]);
    assert!(p.segments[0].redirections.is_empty());
    assert_eq!(p.segments[1].cmd, "cat");
    assert!(p.segments[1].args.is_empty());
}

#[test]
fn parse_empty_segment_fails() {
    assert!(matches!(parse_pipeline("a | | b"), Err(ParseError::EmptySegment)));
    assert!(matches!(parse_pipeline("| a"), Err(ParseError::EmptySegment)));
    assert!(matches!(parse_pipeline("a |"), Err(ParseError::EmptySegment)));
    assert!(matches!(parse_pipeline(""), Err(ParseError::EmptySegment)));
}

#[test]
fn parse_redirections_in_order() {
    let p = parse_pipeline("cmd a > f1 2>> f2 < f3 b").unwrap();
    let seg = &p.segments[0];
    assert_eq!(seg.cmd, "cmd");
    assert_eq!(seg.args, vec!["a".to_string(), "b".to_string()]);
    assert_eq!(seg.redirections.len(), 3);
    assert!(matches!(&seg.redirections[0], Redirection::Stdout(f) if f == "f1"));
    assert!(matches!(&seg.redirections[1], Redirection::StderrAppend(f) if f == "f2"));
    assert!(matches!(&seg.redirections[2], Redirection::Stdin(f) if f == "f3"));
}

#[test]
fn parse_redirection_operator_aliases() {
    let p = parse_pipeline("c 1> a 1>> b >> d 2> e").unwrap();
    let seg = &p.segments[0];
    assert!(matches!(&seg.redirections[0], Redirection::Stdout(f) if f == "a"));
    assert!(matches!(&seg.redirections[1], Redirection::StdoutAppend(f) if f == "b"));
    assert!(matches!(&seg.redirections[2], Redirection::StdoutAppend(f) if f == "d"));
    assert!(matches!(&seg.redirections[3], Redirection::Stderr(f) if f == "e"));
}

#[test]
fn parse_missing_redirection_target_fails() {
    assert!(matches!(parse_pipeline("echo hi >"), Err(ParseError::MissingRedirectionTarget)));
    let toks = vec!["c".to_string(), "2>>".to_string()];
    assert!(matches!(parse_command_segment(&toks), Err(ParseError::MissingRedirectionTarget)));
}

#[test]
fn parse_segment_of_no_tokens_fails() {
    assert!(matches!(parse_command_segment(&Vec::new()), Err(ParseError::EmptySegment)));
}

#[test]
fn quote_removal_precedes_grouping() {
    // Quoting is resolved by the tokenizer, so a quoted pipe reaches the
    // parser as the literal separator token.
    let p = parse_pipeline("echo '|' x").unwrap();
    assert_eq!(p.segments.len(), 2);
    assert_eq!(p.segments[0].cmd, "echo");
    assert_eq!(p.segments[1].cmd, "x");
}

#[test]
fn tokenize_trailing_backslash_is_literal() {
    let toks = tokenize("a\\").unwrap();
    assert_eq!(toks, vec!["a\\".to_string()]);
}

#[test]
fn str_eq_compares_characters() {
    assert!(str_eq("abc", "abc"));
    assert!(!str_eq("abc", "abd"));
    assert!(!str_eq("abc", "ab"));
    assert!(str_eq("", ""));
}

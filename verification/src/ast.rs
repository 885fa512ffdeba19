//! Data model of a parsed command line: pipelines, segments, redirections,
//! and the parse-time error taxonomy.
use vstd::prelude::*;

verus! {

/// Failures of tokenizing or parsing an input line.
#[derive(Debug, PartialEq, Eq, Structural, Clone, Copy)]
pub enum ParseError {
    /// A single or double quote was opened and never closed.
    UnterminatedQuote,
    /// A pipe operator delimits a segment with no tokens at all.
    EmptySegment,
    /// A redirection operator stands last, with no target path after it.
    MissingRedirectionTarget,
}

/// The logical stream a redirection retargets.
#[derive(Debug, PartialEq, Eq, Structural, Clone, Copy)]
pub enum StreamKind {
    StdOut,
    StdErr,
    StdIn,
}

/// One redirection directive, carrying its target path.
#[derive(Debug)]
pub enum Redirection {
    /// `>` or `1>`: truncate/create the file, write standard output to it.
    Stdout(String),
    /// `>>` or `1>>`: append to the file, write standard output to it.
    StdoutAppend(String),
    /// `2>`: truncate/create the file, write standard error to it.
    Stderr(String),
    /// `2>>`: append to the file, write standard error to it.
    StderrAppend(String),
    /// `<`: read standard input from the file.
    Stdin(String),
}

/// Mathematical shape of a redirection: stream, append flag, target path.
pub struct RedirView {
    pub stream: StreamKind,
    pub append: bool,
    pub path: Seq<char>,
}

impl View for Redirection {
    type V = RedirView;

    open spec fn view(&self) -> RedirView {
        match self {
            Redirection::Stdout(p) => RedirView { stream: StreamKind::StdOut, append: false, path: p@ },
            Redirection::StdoutAppend(p) => RedirView { stream: StreamKind::StdOut, append: true, path: p@ },
            Redirection::Stderr(p) => RedirView { stream: StreamKind::StdErr, append: false, path: p@ },
            Redirection::StderrAppend(p) => RedirView { stream: StreamKind::StdErr, append: true, path: p@ },
            Redirection::Stdin(p) => RedirView { stream: StreamKind::StdIn, append: false, path: p@ },
        }
    }
}

impl DeepView for Redirection {
    type V = RedirView;

    open spec fn deep_view(&self) -> RedirView {
        self.view()
    }
}

/// One command invocation within a pipeline.
#[derive(Debug)]
pub struct CommandSegment {
    pub cmd: String,
    pub args: Vec<String>,
    pub redirections: Vec<Redirection>,
}

/// Mathematical shape of a segment.
pub struct SegmentView {
    pub cmd: Seq<char>,
    pub args: Seq<Seq<char>>,
    pub redirections: Seq<RedirView>,
}

impl View for CommandSegment {
    type V = SegmentView;

    open spec fn view(&self) -> SegmentView {
        SegmentView {
            cmd: self.cmd@,
            args: self.args.deep_view(),
            redirections: self.redirections.deep_view(),
        }
    }
}

impl DeepView for CommandSegment {
    type V = SegmentView;

    open spec fn deep_view(&self) -> SegmentView {
        self.view()
    }
}

/// An ordered, non-empty chain of segments connected by pipes.
#[derive(Debug)]
pub struct Pipeline {
    pub segments: Vec<CommandSegment>,
}

impl View for Pipeline {
    type V = Seq<SegmentView>;

    open spec fn view(&self) -> Seq<SegmentView> {
        self.segments.deep_view()
    }
}

impl Pipeline {
    /// The structural invariant: a materialized pipeline has at least one segment.
    pub open spec fn wf(&self) -> bool {
        self@.len() >= 1
    }
}

/// A whole input line, as a sequence of pipelines.
#[derive(Debug)]
pub struct CommandLine {
    pub pipelines: Vec<Pipeline>,
}

} // verus!

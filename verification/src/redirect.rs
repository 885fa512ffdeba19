//! Resolving a segment's redirection list into at most one destination per
//! logical stream: later directives for the same stream replace earlier ones.
use vstd::prelude::*;

use crate::ast::{RedirView, Redirection, StreamKind};

verus! {

/// A file destination for one stream: target path and append flag.
#[derive(Debug, Clone)]
pub struct FileDest {
    pub path: String,
    pub append: bool,
}

/// Mathematical shape of a file destination.
pub struct FileDestView {
    pub path: Seq<char>,
    pub append: bool,
}

impl View for FileDest {
    type V = FileDestView;

    open spec fn view(&self) -> FileDestView {
        FileDestView { path: self.path@, append: self.append }
    }
}

impl DeepView for FileDest {
    type V = FileDestView;

    open spec fn deep_view(&self) -> FileDestView {
        self.view()
    }
}

/// Where a segment's three standard streams go, after applying every
/// redirection in order: `None` keeps the stream as the executor wires it.
#[derive(Debug)]
pub struct RedirPlan {
    pub out: Option<FileDest>,
    pub err: Option<FileDest>,
    pub input: Option<String>,
}

/// Mathematical shape of a resolved plan.
pub struct RedirPlanView {
    pub out: Option<FileDestView>,
    pub err: Option<FileDestView>,
    pub input: Option<Seq<char>>,
}

impl View for RedirPlan {
    type V = RedirPlanView;

    open spec fn view(&self) -> RedirPlanView {
        RedirPlanView { out: self.out.deep_view(), err: self.err.deep_view(), input: self.input.deep_view() }
    }
}

/// The last directive in `rs` that targets `stream`, if any: the one that wins.
pub open spec fn last_dest(rs: Seq<RedirView>, stream: StreamKind) -> Option<FileDestView>
    decreases rs.len(),
{
    if rs.len() == 0 {
        None
    } else if rs.last().stream == stream {
        Some(FileDestView { path: rs.last().path, append: rs.last().append })
    } else {
        last_dest(rs.drop_last(), stream)
    }
}

/// The path of the winning input directive, if any.
pub open spec fn last_input(rs: Seq<RedirView>) -> Option<Seq<char>> {
    match last_dest(rs, StreamKind::StdIn) {
        Some(d) => Some(d.path),
        None => None,
    }
}

/// Resolve a redirection list, later directives replacing earlier ones for
/// the same stream.
pub fn resolve_redirections(redirs: &Vec<Redirection>) -> (r: RedirPlan)
    ensures
        r@.out == last_dest(redirs.deep_view(), StreamKind::StdOut),
        r@.err == last_dest(redirs.deep_view(), StreamKind::StdErr),
        r@.input == last_input(redirs.deep_view()),
{
    let ghost rv = redirs.deep_view();
    let mut out: Option<FileDest> = Option::None;
    let mut err: Option<FileDest> = Option::None;
    let mut input: Option<String> = Option::None;
    let mut i: usize = 0;
    proof {
        assert(rv.take(0) =~= Seq::<RedirView>::empty());
    }
    while i < redirs.len()
        invariant
            rv == redirs.deep_view(),
            i <= rv.len(),
            out.deep_view() == last_dest(rv.take(i as int), StreamKind::StdOut),
            err.deep_view() == last_dest(rv.take(i as int), StreamKind::StdErr),
            input.deep_view() == last_input(rv.take(i as int)),
        decreases rv.len() - i,
    {
        proof {
            assert(rv.take(i + 1).drop_last() =~= rv.take(i as int));
            assert(rv.take(i + 1).last() == rv[i as int]);
        }
        match &redirs[i] {
            Redirection::Stdout(p) => {
                out = Option::Some(FileDest { path: p.clone(), append: false });
            },
            Redirection::StdoutAppend(p) => {
                out = Option::Some(FileDest { path: p.clone(), append: true });
            },
            Redirection::Stderr(p) => {
                err = Option::Some(FileDest { path: p.clone(), append: false });
            },
            Redirection::StderrAppend(p) => {
                err = Option::Some(FileDest { path: p.clone(), append: true });
            },
            Redirection::Stdin(p) => {
                input = Option::Some(p.clone());
            },
        }
        i = i + 1;
    }
    proof {
        assert(rv.take(rv.len() as int) =~= rv);
    }
    RedirPlan { out, err, input }
}

} // verus!

//! Planning the execution of a pipeline: which segments run as builtins,
//! one pipe per adjacent pair, and each segment's three streams wired to a
//! pipe end, a redirection target, or the interpreter's own streams — an
//! explicit redirection always beating pipe wiring.
use vstd::prelude::*;

use crate::ast::{Pipeline, SegmentView, StreamKind};
use crate::builtins::{is_builtin_name, Shell};
use crate::redirect::{last_dest, last_input, resolve_redirections, FileDest, FileDestView};

verus! {

/// Where a segment's standard output goes.
#[derive(Debug)]
pub enum OutputWiring {
    /// The interpreter's own standard output.
    Inherit,
    /// The write end of the pipe with this index.
    Pipe(usize),
    /// A redirection target file.
    File(FileDest),
}

/// Mathematical shape of an output wiring.
pub enum OutWireView {
    Inherit,
    Pipe(int),
    File(FileDestView),
}

impl View for OutputWiring {
    type V = OutWireView;

    open spec fn view(&self) -> OutWireView {
        match self {
            OutputWiring::Inherit => OutWireView::Inherit,
            OutputWiring::Pipe(p) => OutWireView::Pipe(*p as int),
            OutputWiring::File(d) => OutWireView::File(d@),
        }
    }
}

/// Where a segment's standard input comes from.
#[derive(Debug)]
pub enum InputWiring {
    /// The interpreter's own standard input.
    Inherit,
    /// The read end of the pipe with this index.
    Pipe(usize),
    /// A redirection source file.
    File(String),
}

/// Mathematical shape of an input wiring.
pub enum InWireView {
    Inherit,
    Pipe(int),
    File(Seq<char>),
}

impl View for InputWiring {
    type V = InWireView;

    open spec fn view(&self) -> InWireView {
        match self {
            InputWiring::Inherit => InWireView::Inherit,
            InputWiring::Pipe(p) => InWireView::Pipe(*p as int),
            InputWiring::File(p) => InWireView::File(p@),
        }
    }
}

/// How one segment is to be run: in-process or spawned, and its streams.
#[derive(Debug)]
pub struct SegmentPlan {
    pub builtin: bool,
    pub stdin: InputWiring,
    pub stdout: OutputWiring,
    pub stderr: Option<FileDest>,
}

/// Mathematical shape of a segment plan.
pub struct SegmentPlanView {
    pub builtin: bool,
    pub stdin: InWireView,
    pub stdout: OutWireView,
    pub stderr: Option<FileDestView>,
}

impl View for SegmentPlan {
    type V = SegmentPlanView;

    open spec fn view(&self) -> SegmentPlanView {
        SegmentPlanView {
            builtin: self.builtin,
            stdin: self.stdin@,
            stdout: self.stdout@,
            stderr: self.stderr.deep_view(),
        }
    }
}

impl DeepView for SegmentPlan {
    type V = SegmentPlanView;

    open spec fn deep_view(&self) -> SegmentPlanView {
        self.view()
    }
}

/// The whole plan: one entry per segment, and pipe `p` connecting segment
/// `p` to segment `p + 1`, for `p` below `pipes`.
#[derive(Debug)]
pub struct ExecutionPlan {
    pub segments: Vec<SegmentPlan>,
    pub pipes: usize,
}

/// Mathematical shape of an execution plan.
pub struct ExecutionPlanView {
    pub segments: Seq<SegmentPlanView>,
    pub pipes: int,
}

impl View for ExecutionPlan {
    type V = ExecutionPlanView;

    open spec fn view(&self) -> ExecutionPlanView {
        ExecutionPlanView { segments: self.segments.deep_view(), pipes: self.pipes as int }
    }
}

/// The plan of segment `i` out of `n`: an explicit redirection wins each
/// stream; otherwise standard output feeds pipe `i` when a segment
/// follows, and standard input drains pipe `i - 1` when one precedes.
pub open spec fn plan_seg_spec(seg: SegmentView, i: int, n: int) -> SegmentPlanView {
    SegmentPlanView {
        builtin: is_builtin_name(seg.cmd),
        stdin: match last_input(seg.redirections) {
            Some(p) => InWireView::File(p),
            None => if i > 0 {
                InWireView::Pipe(i - 1)
            } else {
                InWireView::Inherit
            },
        },
        stdout: match last_dest(seg.redirections, StreamKind::StdOut) {
            Some(d) => OutWireView::File(d),
            None => if i < n - 1 {
                OutWireView::Pipe(i)
            } else {
                OutWireView::Inherit
            },
        },
        stderr: last_dest(seg.redirections, StreamKind::StdErr),
    }
}

/// Is this plan the plan of that pipeline?
pub open spec fn plan_wf(planv: ExecutionPlanView, pv: Seq<SegmentView>) -> bool {
    &&& planv.segments.len() == pv.len()
    &&& planv.pipes == pv.len() - 1
    &&& forall|i: int| 0 <= i < pv.len() ==> planv.segments[i] == plan_seg_spec(#[trigger] pv[i], i, pv.len() as int)
}

/// Does this segment plan write to pipe `p`?
pub open spec fn writes_pipe(sp: SegmentPlanView, p: int) -> bool {
    sp.stdout == OutWireView::Pipe(p)
}

/// Does this segment plan read from pipe `p`?
pub open spec fn reads_pipe(sp: SegmentPlanView, p: int) -> bool {
    sp.stdin == InWireView::Pipe(p)
}

/// Plan the execution of a pipeline.
pub fn plan_pipeline(shell: &Shell, pipeline: &Pipeline) -> (r: ExecutionPlan)
    requires
        pipeline.wf(),
    ensures
        plan_wf(r@, pipeline@),
{
    let ghost pv = pipeline@;
    let n = pipeline.segments.len();
    let mut segs: Vec<SegmentPlan> = Vec::new();
    let mut i: usize = 0;
    while i < n
        invariant
            pv == pipeline@,
            n == pv.len(),
            n >= 1,
            i <= n,
            segs@.len() == i,
            forall|k: int| 0 <= k < i ==> segs.deep_view()[k] == plan_seg_spec(#[trigger] pv[k], k, n as int),
        decreases n - i,
    {
        let seg = &pipeline.segments[i];
        let resolved = resolve_redirections(&seg.redirections);
        let stdout = match resolved.out {
            Option::Some(d) => OutputWiring::File(d),
            Option::None => if i < n - 1 {
                OutputWiring::Pipe(i)
            } else {
                OutputWiring::Inherit
            },
        };
        let stdin = match resolved.input {
            Option::Some(p) => InputWiring::File(p),
            Option::None => if i > 0 {
                InputWiring::Pipe(i - 1)
            } else {
                InputWiring::Inherit
            },
        };
        let builtin = shell.is_builtin(seg.cmd.as_str());
        let sp = SegmentPlan { builtin, stdin, stdout, stderr: resolved.err };
        proof {
            assert(pv[i as int] == pipeline.segments@[i as int]@);
            assert(sp@ == plan_seg_spec(pv[i as int], i as int, n as int));
        }
        segs.push(sp);
        i = i + 1;
    }
    ExecutionPlan { segments: segs, pipes: n - 1 }
}

/// The pipe-ownership discipline that keeps a pipeline from hanging: in a
/// well-formed plan, pipe `p`'s write end is consumed by segment `p` alone
/// or by no segment at all (when segment `p` redirects its output to a
/// file), and its read end by segment `p + 1` alone or by none — so the
/// executor, closing every end no segment consumes, leaves no open write
/// end behind, whether or not a stage ever runs.
pub proof fn lemma_plan_pipe_ownership(planv: ExecutionPlanView, pv: Seq<SegmentView>)
    requires
        plan_wf(planv, pv),
        pv.len() >= 1,
    ensures
        forall|i: int, p: int|
            0 <= i < planv.segments.len() && #[trigger] writes_pipe(planv.segments[i], p) ==> i == p,
        forall|i: int, p: int|
            0 <= i < planv.segments.len() && #[trigger] reads_pipe(planv.segments[i], p) ==> i == p + 1,
        forall|p: int|
            0 <= p < planv.pipes ==> writes_pipe(#[trigger] planv.segments[p], p) || planv.segments[p].stdout is File,
        forall|p: int|
            0 <= p < planv.pipes ==> reads_pipe(#[trigger] planv.segments[p + 1], p) || planv.segments[p + 1].stdin is File,
{
    assert forall|i: int, p: int|
        0 <= i < planv.segments.len() && #[trigger] writes_pipe(planv.segments[i], p) implies i == p by {
        assert(planv.segments[i] == plan_seg_spec(pv[i], i, pv.len() as int));
    }
    assert forall|i: int, p: int|
        0 <= i < planv.segments.len() && #[trigger] reads_pipe(planv.segments[i], p) implies i == p + 1 by {
        assert(planv.segments[i] == plan_seg_spec(pv[i], i, pv.len() as int));
    }
    assert forall|p: int|
        0 <= p < planv.pipes implies writes_pipe(#[trigger] planv.segments[p], p) || planv.segments[p].stdout is File by {
        assert(planv.segments[p] == plan_seg_spec(pv[p], p, pv.len() as int));
    }
    assert forall|p: int|
        0 <= p < planv.pipes implies reads_pipe(#[trigger] planv.segments[p + 1], p) || planv.segments[p + 1].stdin is File by {
        assert(planv.segments[p + 1] == plan_seg_spec(pv[p + 1], p + 1, pv.len() as int));
    }
}

} // verus!

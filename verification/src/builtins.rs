//! The fixed builtin command set and its in-process semantics: what each
//! builtin writes to its streams and what process-wide effect it asks for.
//! Builtins never perform the effect themselves; they return it, so that the
//! caller owning the process state can apply it.
use vstd::prelude::*;

use crate::ast::CommandSegment;
use crate::lookup::{find_exec_spec, find_executable, DirListing, DirListingView};
use crate::numparse::{parse_i32, parse_i32_spec};
use crate::strutil::{push_char, str_eq};

verus! {

/// Is this word the name of a builtin command?
pub open spec fn is_builtin_name(s: Seq<char>) -> bool {
    ||| s == "exit"@
    ||| s == "echo"@
    ||| s == "pwd"@
    ||| s == "cd"@
    ||| s == "type"@
    ||| s == "history"@
}

/// A snapshot of the process-wide state a builtin may consult: the working
/// directory, the home directory, the stored history, and the search-path
/// directory listings.
#[derive(Debug)]
pub struct SessionEnv {
    pub cwd: Option<String>,
    pub home: Option<String>,
    pub history: Vec<String>,
    pub dirs: Vec<DirListing>,
}

/// Mathematical shape of a session snapshot.
pub struct SessionView {
    pub cwd: Option<Seq<char>>,
    pub home: Option<Seq<char>>,
    pub history: Seq<Seq<char>>,
    pub dirs: Seq<DirListingView>,
}

impl View for SessionEnv {
    type V = SessionView;

    open spec fn view(&self) -> SessionView {
        SessionView {
            cwd: self.cwd.deep_view(),
            home: self.home.deep_view(),
            history: self.history.deep_view(),
            dirs: self.dirs.deep_view(),
        }
    }
}

/// The process-wide effect a builtin asks its caller to apply.
#[derive(Debug)]
pub enum BuiltinAction {
    /// No effect beyond the text written.
    Stay,
    /// Terminate the interpreter process with this status.
    Exit(i32),
    /// Change the process working directory to this path.
    Chdir(String),
}

/// Mathematical shape of a builtin's requested effect.
pub enum ActionView {
    Stay,
    Exit(i32),
    Chdir(Seq<char>),
}

impl View for BuiltinAction {
    type V = ActionView;

    open spec fn view(&self) -> ActionView {
        match self {
            BuiltinAction::Stay => ActionView::Stay,
            BuiltinAction::Exit(c) => ActionView::Exit(*c),
            BuiltinAction::Chdir(p) => ActionView::Chdir(p@),
        }
    }
}

/// What running a builtin produced: the exact text for its output stream,
/// the exact text for its error stream, and the requested effect.
#[derive(Debug)]
pub struct BuiltinOutcome {
    pub out: String,
    pub err: String,
    pub action: BuiltinAction,
}

/// Mathematical shape of a builtin outcome.
pub struct OutcomeView {
    pub out: Seq<char>,
    pub err: Seq<char>,
    pub action: ActionView,
}

impl View for BuiltinOutcome {
    type V = OutcomeView;

    open spec fn view(&self) -> OutcomeView {
        OutcomeView { out: self.out@, err: self.err@, action: self.action@ }
    }
}

/// The exit status `exit` uses: its first argument as a decimal integer,
/// or zero when absent or unparsable.
pub open spec fn exit_code_spec(args: Seq<Seq<char>>) -> i32 {
    if args.len() == 0 {
        0
    } else {
        match parse_i32_spec(args[0]) {
            Some(v) => v,
            None => 0,
        }
    }
}

/// The arguments joined by single spaces, from position `i` on.
pub open spec fn join_spaces_from(args: Seq<Seq<char>>, i: int) -> Seq<char>
    decreases args.len() - i,
{
    if i < 0 || i >= args.len() {
        Seq::empty()
    } else if i == args.len() - 1 {
        args[i]
    } else {
        args[i] + " "@ + join_spaces_from(args, i + 1)
    }
}

/// The arguments joined by single spaces.
pub open spec fn join_spaces(args: Seq<Seq<char>>) -> Seq<char> {
    join_spaces_from(args, 0)
}

/// Does the word mention the home directory?
pub open spec fn contains_tilde(s: Seq<char>) -> bool {
    exists|k: int| 0 <= k < s.len() && s[k] == '~'
}

/// The word with every `~` replaced by the home directory, from `i` on.
pub open spec fn replace_tilde_from(s: Seq<char>, i: int, home: Seq<char>) -> Seq<char>
    decreases s.len() - i,
{
    if i < 0 || i >= s.len() {
        Seq::empty()
    } else if s[i] == '~' {
        home + replace_tilde_from(s, i + 1, home)
    } else {
        seq![s[i]] + replace_tilde_from(s, i + 1, home)
    }
}

/// The word with every `~` replaced by the home directory.
pub open spec fn replace_tilde(s: Seq<char>, home: Seq<char>) -> Seq<char> {
    replace_tilde_from(s, 0, home)
}

/// What `cd` does: no argument goes home; otherwise the argument, with any
/// `~` resolved against the home directory. A missing home directory, when
/// needed, is reported instead.
pub open spec fn cd_outcome_spec(args: Seq<Seq<char>>, home: Option<Seq<char>>) -> OutcomeView {
    if args.len() == 0 {
        match home {
            Some(h) => OutcomeView { out: Seq::empty(), err: Seq::empty(), action: ActionView::Chdir(h) },
            None => OutcomeView { out: Seq::empty(), err: "cd: HOME not set\n"@, action: ActionView::Stay },
        }
    } else if !contains_tilde(args[0]) {
        OutcomeView { out: Seq::empty(), err: Seq::empty(), action: ActionView::Chdir(args[0]) }
    } else {
        match home {
            Some(h) => OutcomeView {
                out: Seq::empty(),
                err: Seq::empty(),
                action: ActionView::Chdir(replace_tilde(args[0], h)),
            },
            None => OutcomeView { out: Seq::empty(), err: "cd: HOME not set\n"@, action: ActionView::Stay },
        }
    }
}

/// The output-stream text of `type` for the names from `i` on: builtins
/// report as builtins, found executables report their resolved path.
pub open spec fn type_out_from(names: Seq<Seq<char>>, dirs: Seq<DirListingView>, i: int) -> Seq<char>
    decreases names.len() - i,
{
    if i < 0 || i >= names.len() {
        Seq::empty()
    } else if is_builtin_name(names[i]) {
        names[i] + " is a shell builtin\n"@ + type_out_from(names, dirs, i + 1)
    } else {
        match find_exec_spec(names[i], dirs) {
            Some(p) => names[i] + " is "@ + p + "\n"@ + type_out_from(names, dirs, i + 1),
            None => type_out_from(names, dirs, i + 1),
        }
    }
}

/// The error-stream text of `type` for the names from `i` on: names that
/// are neither builtins nor on the search path.
pub open spec fn type_err_from(names: Seq<Seq<char>>, dirs: Seq<DirListingView>, i: int) -> Seq<char>
    decreases names.len() - i,
{
    if i < 0 || i >= names.len() {
        Seq::empty()
    } else if is_builtin_name(names[i]) || find_exec_spec(names[i], dirs) is Some {
        type_err_from(names, dirs, i + 1)
    } else {
        names[i] + ": not found\n"@ + type_err_from(names, dirs, i + 1)
    }
}

/// The first history index `history` prints: all entries without an
/// argument or with an unparsable one, the last `n` with argument `n`.
pub open spec fn history_start(args: Seq<Seq<char>>, hist: Seq<Seq<char>>) -> int {
    if args.len() == 0 {
        0
    } else {
        match parse_i32_spec(args[0]) {
            None => 0,
            Some(n) => if n <= 0 {
                hist.len() as int
            } else if n >= hist.len() {
                0
            } else {
                hist.len() - n
            },
        }
    }
}

/// The entries from `i` on, one per line.
pub open spec fn lines_from(ts: Seq<Seq<char>>, i: int) -> Seq<char>
    decreases ts.len() - i,
{
    if i < 0 || i >= ts.len() {
        Seq::empty()
    } else {
        ts[i] + "\n"@ + lines_from(ts, i + 1)
    }
}

/// What running a builtin named `cmd` with `args` produces under the
/// session snapshot `env`; an unknown name reports "command not found".
pub open spec fn builtin_outcome_spec(cmd: Seq<char>, args: Seq<Seq<char>>, env: SessionView) -> OutcomeView {
    if cmd == "exit"@ {
        OutcomeView { out: Seq::empty(), err: Seq::empty(), action: ActionView::Exit(exit_code_spec(args)) }
    } else if cmd == "echo"@ {
        OutcomeView { out: join_spaces(args) + "\n"@, err: Seq::empty(), action: ActionView::Stay }
    } else if cmd == "pwd"@ {
        match env.cwd {
            Some(d) => OutcomeView { out: d + "\n"@, err: Seq::empty(), action: ActionView::Stay },
            None => OutcomeView {
                out: Seq::empty(),
                err: "pwd: cannot determine current directory\n"@,
                action: ActionView::Stay,
            },
        }
    } else if cmd == "cd"@ {
        cd_outcome_spec(args, env.home)
    } else if cmd == "type"@ {
        OutcomeView {
            out: type_out_from(args, env.dirs, 0),
            err: type_err_from(args, env.dirs, 0),
            action: ActionView::Stay,
        }
    } else if cmd == "history"@ {
        OutcomeView {
            out: lines_from(env.history, history_start(args, env.history)),
            err: Seq::empty(),
            action: ActionView::Stay,
        }
    } else {
        OutcomeView { out: Seq::empty(), err: cmd + ": command not found\n"@, action: ActionView::Stay }
    }
}

/// What dispatching a whole segment produces: a builtin runs in-process;
/// anything else either resolves to an executable to spawn or is not found.
pub enum CommandOutcomeView {
    Builtin(OutcomeView),
    Spawn(Seq<char>),
    NotFound(Seq<char>),
}

/// How a segment is to be run.
#[derive(Debug)]
pub enum CommandOutcome {
    /// A builtin ran in-process; here is what it produced.
    Builtin(BuiltinOutcome),
    /// Spawn this resolved executable path as a child process.
    Spawn(String),
    /// Nothing to run; here is the error-stream diagnostic.
    NotFound(String),
}

impl View for CommandOutcome {
    type V = CommandOutcomeView;

    open spec fn view(&self) -> CommandOutcomeView {
        match self {
            CommandOutcome::Builtin(o) => CommandOutcomeView::Builtin(o@),
            CommandOutcome::Spawn(p) => CommandOutcomeView::Spawn(p@),
            CommandOutcome::NotFound(m) => CommandOutcomeView::NotFound(m@),
        }
    }
}

/// The dispatch decision and its result for a segment under a session
/// snapshot.
pub open spec fn command_outcome_spec(cmd: Seq<char>, args: Seq<Seq<char>>, env: SessionView) -> CommandOutcomeView {
    if is_builtin_name(cmd) {
        CommandOutcomeView::Builtin(builtin_outcome_spec(cmd, args, env))
    } else {
        match find_exec_spec(cmd, env.dirs) {
            Some(p) => CommandOutcomeView::Spawn(p),
            None => CommandOutcomeView::NotFound(cmd + ": command not found\n"@),
        }
    }
}

/// The interpreter's per-session configuration: the search-path variable it
/// was started with.
#[derive(Debug)]
pub struct Shell {
    pub path: Option<String>,
}

impl Shell {
    /// A shell over the given search-path variable, if one is set.
    pub fn new(path: Option<String>) -> (r: Shell)
        ensures
            r.path == path,
    {
        Shell { path }
    }

    /// Is `cmd` one of the builtin commands?
    pub fn is_builtin(&self, cmd: &str) -> (r: bool)
        ensures
            r == is_builtin_name(cmd@),
    {
        str_eq(cmd, "exit") || str_eq(cmd, "echo") || str_eq(cmd, "pwd") || str_eq(cmd, "cd")
            || str_eq(cmd, "type") || str_eq(cmd, "history")
    }

    /// Run a builtin segment against a session snapshot, producing its
    /// stream text and requested effect.
    pub fn run_builtin(&self, command: &CommandSegment, env: &SessionEnv) -> (r: BuiltinOutcome)
        ensures
            r@ == builtin_outcome_spec(command@.cmd, command@.args, env@),
    {
        let cmd = command.cmd.as_str();
        if str_eq(cmd, "exit") {
            let code = exit_code(&command.args);
            BuiltinOutcome { out: String::new(), err: String::new(), action: BuiltinAction::Exit(code) }
        } else if str_eq(cmd, "echo") {
            let mut out = join_spaces_exec(&command.args);
            out.append("\n");
            BuiltinOutcome { out, err: String::new(), action: BuiltinAction::Stay }
        } else if str_eq(cmd, "pwd") {
            match &env.cwd {
                Option::Some(d) => {
                    let mut out = d.clone();
                    out.append("\n");
                    BuiltinOutcome { out, err: String::new(), action: BuiltinAction::Stay }
                },
                Option::None => {
                    let mut err = String::new();
                    err.append("pwd: cannot determine current directory\n");
                    BuiltinOutcome { out: String::new(), err, action: BuiltinAction::Stay }
                },
            }
        } else if str_eq(cmd, "cd") {
            self.run_cd(&command.args, env)
        } else if str_eq(cmd, "type") {
            let report = type_report(&command.args, &env.dirs);
            BuiltinOutcome { out: report.0, err: report.1, action: BuiltinAction::Stay }
        } else if str_eq(cmd, "history") {
            let out = history_text(&command.args, &env.history);
            BuiltinOutcome { out, err: String::new(), action: BuiltinAction::Stay }
        } else {
            let mut err = command.cmd.clone();
            err.append(": command not found\n");
            BuiltinOutcome { out: String::new(), err, action: BuiltinAction::Stay }
        }
    }

    /// The `cd` builtin: decide the target directory, or report a missing
    /// home directory.
    fn run_cd(&self, args: &Vec<String>, env: &SessionEnv) -> (r: BuiltinOutcome)
        ensures
            r@ == cd_outcome_spec(args.deep_view(), env@.home),
    {
        if args.len() == 0 {
            match &env.home {
                Option::Some(h) => BuiltinOutcome {
                    out: String::new(),
                    err: String::new(),
                    action: BuiltinAction::Chdir(h.clone()),
                },
                Option::None => {
                    let mut err = String::new();
                    err.append("cd: HOME not set\n");
                    BuiltinOutcome { out: String::new(), err, action: BuiltinAction::Stay }
                },
            }
        } else {
            let arg = &args[0];
            if !contains_tilde_exec(arg.as_str()) {
                BuiltinOutcome {
                    out: String::new(),
                    err: String::new(),
                    action: BuiltinAction::Chdir(arg.clone()),
                }
            } else {
                match &env.home {
                    Option::Some(h) => {
                        let target = replace_tilde_exec(arg.as_str(), h.as_str());
                        BuiltinOutcome {
                            out: String::new(),
                            err: String::new(),
                            action: BuiltinAction::Chdir(target),
                        }
                    },
                    Option::None => {
                        let mut err = String::new();
                        err.append("cd: HOME not set\n");
                        BuiltinOutcome { out: String::new(), err, action: BuiltinAction::Stay }
                    },
                }
            }
        }
    }

    /// Dispatch a whole segment: run it as a builtin, or resolve it to an
    /// executable to spawn, or report it not found.
    pub fn run_command(&self, command: &CommandSegment, env: &SessionEnv) -> (r: CommandOutcome)
        ensures
            r@ == command_outcome_spec(command@.cmd, command@.args, env@),
    {
        if self.is_builtin(command.cmd.as_str()) {
            CommandOutcome::Builtin(self.run_builtin(command, env))
        } else {
            match find_executable(command.cmd.as_str(), &env.dirs) {
                Option::Some(p) => CommandOutcome::Spawn(p),
                Option::None => {
                    let mut msg = command.cmd.clone();
                    msg.append(": command not found\n");
                    CommandOutcome::NotFound(msg)
                },
            }
        }
    }
}

/// The status `exit` terminates with.
pub fn exit_code(args: &Vec<String>) -> (r: i32)
    ensures
        r == exit_code_spec(args.deep_view()),
{
    if args.len() == 0 {
        0
    } else {
        match parse_i32(args[0].as_str()) {
            Option::Some(v) => v,
            Option::None => 0,
        }
    }
}

/// The diagnostic for a `cd` target the platform refused.
pub fn cd_failure_message(target: &str) -> (r: String)
    ensures
        r@ == "cd: "@ + target@ + ": No such file or directory\n"@,
{
    let mut msg = String::new();
    msg.append("cd: ");
    msg.append(target);
    msg.append(": No such file or directory\n");
    msg
}

/// Join arguments with single spaces, as `echo` prints them.
fn join_spaces_exec(args: &Vec<String>) -> (r: String)
    ensures
        r@ == join_spaces(args.deep_view()),
{
    let ghost av = args.deep_view();
    let mut out = String::new();
    let mut i: usize = 0;
    while i < args.len()
        invariant
            av == args.deep_view(),
            i <= av.len(),
            join_spaces(av) == out@ + join_spaces_from(av, i as int),
        decreases av.len() - i,
    {
        let ghost pre = out@;
        out.append(args[i].as_str());
        if i + 1 < args.len() {
            out.append(" ");
            proof {
                assert(out@ =~= pre + (av[i as int] + " "@));
                assert(pre + (av[i as int] + " "@) + join_spaces_from(av, i + 1) =~= pre + (av[
                    i as int
                ] + " "@ + join_spaces_from(av, i + 1)));
            }
        } else {
            proof {
                assert(pre + av[i as int] + Seq::<char>::empty() =~= pre + av[i as int]);
            }
        }
        i = i + 1;
    }
    proof {
        assert(out@ + Seq::<char>::empty() =~= out@);
    }
    out
}

/// Does the word mention `~`?
fn contains_tilde_exec(s: &str) -> (r: bool)
    ensures
        r == contains_tilde(s@),
{
    let n = s.unicode_len();
    let mut i: usize = 0;
    while i < n
        invariant
            n == s@.len(),
            i <= n,
            forall|k: int| 0 <= k < i ==> s@[k] != '~',
        decreases n - i,
    {
        if s.get_char(i) == '~' {
            return true;
        }
        i = i + 1;
    }
    false
}

/// Replace every `~` in the word by the home directory.
fn replace_tilde_exec(s: &str, home: &str) -> (r: String)
    ensures
        r@ == replace_tilde(s@, home@),
{
    let n = s.unicode_len();
    let mut out = String::new();
    let mut i: usize = 0;
    while i < n
        invariant
            n == s@.len(),
            i <= n,
            replace_tilde(s@, home@) == out@ + replace_tilde_from(s@, i as int, home@),
        decreases n - i,
    {
        let ghost pre = out@;
        let c = s.get_char(i);
        if c == '~' {
            out.append(home);
            proof {
                assert(pre + home@ + replace_tilde_from(s@, i + 1, home@) =~= pre + (home@
                    + replace_tilde_from(s@, i + 1, home@)));
            }
        } else {
            push_char(&mut out, c);
            proof {
                assert(out@ =~= pre + seq![s@[i as int]]);
                assert(pre + seq![s@[i as int]] + replace_tilde_from(s@, i + 1, home@) =~= pre + (seq![
                    s@[i as int]
                ] + replace_tilde_from(s@, i + 1, home@)));
            }
        }
        i = i + 1;
    }
    proof {
        assert(out@ + Seq::<char>::empty() =~= out@);
    }
    out
}

/// The two stream texts of `type` over the given names.
fn type_report(args: &Vec<String>, dirs: &Vec<DirListing>) -> (r: (String, String))
    ensures
        r.0@ == type_out_from(args.deep_view(), dirs.deep_view(), 0),
        r.1@ == type_err_from(args.deep_view(), dirs.deep_view(), 0),
{
    let ghost av = args.deep_view();
    let ghost dv = dirs.deep_view();
    let mut out = String::new();
    let mut err = String::new();
    let mut i: usize = 0;
    while i < args.len()
        invariant
            av == args.deep_view(),
            dv == dirs.deep_view(),
            i <= av.len(),
            type_out_from(av, dv, 0) == out@ + type_out_from(av, dv, i as int),
            type_err_from(av, dv, 0) == err@ + type_err_from(av, dv, i as int),
        decreases av.len() - i,
    {
        let ghost pre_out = out@;
        let ghost pre_err = err@;
        let name = &args[i];
        if str_eq(name.as_str(), "exit") || str_eq(name.as_str(), "echo") || str_eq(name.as_str(), "pwd")
            || str_eq(name.as_str(), "cd") || str_eq(name.as_str(), "type") || str_eq(name.as_str(), "history") {
            out.append(name.as_str());
            out.append(" is a shell builtin\n");
            proof {
                assert(out@ =~= pre_out + (av[i as int] + " is a shell builtin\n"@));
                assert(pre_out + (av[i as int] + " is a shell builtin\n"@) + type_out_from(av, dv, i + 1)
                    =~= pre_out + (av[i as int] + " is a shell builtin\n"@ + type_out_from(av, dv, i + 1)));
            }
        } else {
            match find_executable(name.as_str(), dirs) {
                Option::Some(p) => {
                    out.append(name.as_str());
                    out.append(" is ");
                    out.append(p.as_str());
                    out.append("\n");
                    proof {
                        assert(out@ =~= pre_out + (av[i as int] + " is "@ + p@ + "\n"@));
                        assert(pre_out + (av[i as int] + " is "@ + p@ + "\n"@) + type_out_from(av, dv, i + 1)
                            =~= pre_out + (av[i as int] + " is "@ + p@ + "\n"@ + type_out_from(av, dv, i + 1)));
                    }
                },
                Option::None => {
                    err.append(name.as_str());
                    err.append(": not found\n");
                    proof {
                        assert(err@ =~= pre_err + (av[i as int] + ": not found\n"@));
                        assert(pre_err + (av[i as int] + ": not found\n"@) + type_err_from(av, dv, i + 1)
                            =~= pre_err + (av[i as int] + ": not found\n"@ + type_err_from(av, dv, i + 1)));
                    }
                },
            }
        }
        i = i + 1;
    }
    proof {
        assert(out@ + Seq::<char>::empty() =~= out@);
        assert(err@ + Seq::<char>::empty() =~= err@);
    }
    (out, err)
}

/// The text `history` prints: the selected entries, one per line.
fn history_text(args: &Vec<String>, hist: &Vec<String>) -> (r: String)
    ensures
        r@ == lines_from(hist.deep_view(), history_start(args.deep_view(), hist.deep_view())),
{
    let ghost av = args.deep_view();
    let ghost hv = hist.deep_view();
    let mut start: usize = 0;
    if args.len() > 0 {
        match parse_i32(args[0].as_str()) {
            Option::None => {
            },
            Option::Some(n) => {
                if n <= 0 {
                    start = hist.len();
                } else if n as usize >= hist.len() {
                    start = 0;
                } else {
                    start = hist.len() - n as usize;
                }
            },
        }
    }
    assert(start as int == history_start(av, hv));
    let mut out = String::new();
    let mut k: usize = start;
    while k < hist.len()
        invariant
            av == args.deep_view(),
            hv == hist.deep_view(),
            start <= k <= hv.len(),
            lines_from(hv, start as int) == out@ + lines_from(hv, k as int),
        decreases hv.len() - k,
    {
        let ghost pre = out@;
        out.append(hist[k].as_str());
        out.append("\n");
        proof {
            assert(out@ =~= pre + (hv[k as int] + "\n"@));
            assert(pre + (hv[k as int] + "\n"@) + lines_from(hv, k + 1) =~= pre + (hv[k as int] + "\n"@
                + lines_from(hv, k + 1)));
        }
        k = k + 1;
    }
    proof {
        assert(out@ + Seq::<char>::empty() =~= out@);
    }
    out
}

/// For `type`, a builtin name reports as a shell builtin under every
/// session snapshot alike: the report never depends on the search path.
pub proof fn lemma_type_builtin_stable(args: Seq<Seq<char>>, env1: SessionView, env2: SessionView)
    requires
        forall|k: int| 0 <= k < args.len() ==> is_builtin_name(#[trigger] args[k]),
    ensures
        builtin_outcome_spec("type"@, args, env1) == builtin_outcome_spec("type"@, args, env2),
{
    reveal_strlit("type");
    reveal_strlit("exit");
    reveal_strlit("echo");
    reveal_strlit("pwd");
    reveal_strlit("cd");
    assert("type"@[0] != "exit"@[0]);
    assert("type"@[0] != "echo"@[0]);
    assert("type"@.len() != "pwd"@.len());
    assert("type"@.len() != "cd"@.len());
    lemma_type_builtin_from(args, env1.dirs, env2.dirs, 0);
}

/// Induction step for `lemma_type_builtin_stable`, over the name list.
proof fn lemma_type_builtin_from(args: Seq<Seq<char>>, dirs1: Seq<DirListingView>, dirs2: Seq<DirListingView>, i: int)
    requires
        forall|k: int| 0 <= k < args.len() ==> is_builtin_name(#[trigger] args[k]),
    ensures
        type_out_from(args, dirs1, i) == type_out_from(args, dirs2, i),
        type_err_from(args, dirs1, i) == type_err_from(args, dirs2, i),
    decreases args.len() - i,
{
    if 0 <= i < args.len() {
        lemma_type_builtin_from(args, dirs1, dirs2, i + 1);
    }
}

} // verus!

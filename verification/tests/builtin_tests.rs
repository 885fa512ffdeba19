use rshell::ast::CommandSegment;
use rshell::{
    cd_failure_message, exit_code, parse_i32, BuiltinAction, CommandOutcome, DirListing, FileEntry,
    SessionEnv, Shell,
};

fn seg(cmd: &str, args: &[&str]) -> CommandSegment {
    CommandSegment {
        cmd: cmd.to_string(),
        args: args.iter().map(|s| s.to_string()).collect(),
        redirections: Vec::new(),
    }
}

fn env_with_dirs(dirs: Vec<DirListing>) -> SessionEnv {
    SessionEnv { cwd: Some("/work".to_string()), home: Some("/home/me".to_string()), history: Vec::new(), dirs }
}

fn empty_env() -> SessionEnv {
    env_with_dirs(Vec::new())
}

fn bin_dir() -> DirListing {
    DirListing {
        dir: "/bin".to_string(),
        entries: vec![
            FileEntry { name: "cat".to_string(), mode: 0o755 },
            FileEntry { name: "notes.txt".to_string(), mode: 0o644 },
        ],
    }
}

#[test]
fn echo_joins_arguments() {
    let shell = Shell::new(None);
    let out = shell.run_builtin(&seg("echo", &["hello", "world"]), &empty_env());
    assert_eq!(out.out, "hello world\n");
    assert_eq!(out.err, "");
    assert!(matches!(out.action, BuiltinAction::Stay));
}

#[test]
fn echo_of_nothing_is_a_bare_newline() {
    let shell = Shell::new(None);
    let out = shell.run_builtin(&seg("echo", &[]), &empty_env());
    assert_eq!(out.out, "\n");
}

#[test]
fn pwd_reports_working_directory() {
    let shell = Shell::new(None);
    let out = shell.run_builtin(&seg("pwd", &[]), &empty_env());
    assert_eq!(out.out, "/work\n");
    assert_eq!(out.err, "");
}

#[test]
fn pwd_without_directory_reports_error() {
    let shell = Shell::new(None);
    let mut env = empty_env();
    env.cwd = None;
    let out = shell.run_builtin(&seg("pwd", &[]), &env);
    assert_eq!(out.out, "");
    assert_eq!(out.err, "pwd: cannot determine current directory\n");
}

#[test]
fn exit_parses_status() {
    let shell = Shell::new(None);
    let out = shell.run_builtin(&seg("exit", &["42"]), &empty_env());
    assert!(matches!(out.action, BuiltinAction::Exit(42)));
    let out = shell.run_builtin(&seg("exit", &[]), &empty_env());
    assert!(matches!(out.action, BuiltinAction::Exit(0)));
    let out = shell.run_builtin(&seg("exit", &["nope"]), &empty_env());
    assert!(matches!(out.action, BuiltinAction::Exit(0)));
}

#[test]
fn exit_code_edge_values() {
    assert_eq!(exit_code(&vec!["-7".to_string()]), -7);
    assert_eq!(exit_code(&vec!["+7".to_string()]), 7);
    assert_eq!(exit_code(&vec!["99999999999".to_string()]), 0);
    assert_eq!(exit_code(&Vec::new()), 0);
}

#[test]
fn parse_i32_bounds() {
    assert_eq!(parse_i32("2147483647"), Some(2147483647));
    assert_eq!(parse_i32("-2147483648"), Some(-2147483648));
    assert_eq!(parse_i32("2147483648"), None);
    assert_eq!(parse_i32("-2147483649"), None);
    assert_eq!(parse_i32(""), None);
    assert_eq!(parse_i32("-"), None);
    assert_eq!(parse_i32("1x"), None);
    assert_eq!(parse_i32("007"), Some(7));
}

#[test]
fn cd_goes_home_without_argument() {
    let shell = Shell::new(None);
    let out = shell.run_builtin(&seg("cd", &[]), &empty_env());
    assert!(matches!(&out.action, BuiltinAction::Chdir(p) if p == "/home/me"));
    assert_eq!(out.err, "");
}

#[test]
fn cd_resolves_tilde() {
    let shell = Shell::new(None);
    let out = shell.run_builtin(&seg("cd", &["~/src"]), &empty_env());
    assert!(matches!(&out.action, BuiltinAction::Chdir(p) if p == "/home/me/src"));
}

#[test]
fn cd_plain_path_is_kept() {
    let shell = Shell::new(None);
    let out = shell.run_builtin(&seg("cd", &["/tmp"]), &empty_env());
    assert!(matches!(&out.action, BuiltinAction::Chdir(p) if p == "/tmp"));
}

#[test]
fn cd_without_home_reports_error() {
    let shell = Shell::new(None);
    let mut env = empty_env();
    env.home = None;
    let out = shell.run_builtin(&seg("cd", &[]), &env);
    assert!(matches!(out.action, BuiltinAction::Stay));
    assert_eq!(out.err, "cd: HOME not set\n");
}

#[test]
fn cd_failure_diagnostic_text() {
    let msg = cd_failure_message("nowhere");
    assert_eq!(msg, "cd: nowhere: No such file or directory\n");
}

#[test]
fn type_reports_builtins_whatever_the_path_holds() {
    let shell = Shell::new(None);
    let with_dirs = env_with_dirs(vec![DirListing {
        dir: "/bin".to_string(),
        entries: vec![FileEntry { name: "echo".to_string(), mode: 0o755 }],
    }]);
    let without = empty_env();
    let a = shell.run_builtin(&seg("type", &["echo"]), &with_dirs);
    let b = shell.run_builtin(&seg("type", &["echo"]), &without);
    assert_eq!(a.out, "echo is a shell builtin\n");
    assert_eq!(b.out, a.out);
    assert_eq!(a.err, "");
}

#[test]
fn type_resolves_executables_and_reports_missing() {
    let shell = Shell::new(None);
    let env = env_with_dirs(vec![bin_dir()]);
    let out = shell.run_builtin(&seg("type", &["cat", "missing", "cd"]), &env);
    assert_eq!(out.out, "cat is /bin/cat\ncd is a shell builtin\n");
    assert_eq!(out.err, "missing: not found\n");
}

#[test]
fn history_prints_entries() {
    let shell = Shell::new(None);
    let mut env = empty_env();
    env.history = vec!["ls".to_string(), "pwd".to_string(), "echo hi".to_string()];
    let out = shell.run_builtin(&seg("history", &[]), &env);
    assert_eq!(out.out, "ls\npwd\necho hi\n");
    let out = shell.run_builtin(&seg("history", &["2"]), &env);
    assert_eq!(out.out, "pwd\necho hi\n");
    let out = shell.run_builtin(&seg("history", &["0"]), &env);
    assert_eq!(out.out, "");
    let out = shell.run_builtin(&seg("history", &["9"]), &env);
    assert_eq!(out.out, "ls\npwd\necho hi\n");
}

#[test]
fn unknown_builtin_name_reports_not_found() {
    let shell = Shell::new(None);
    let out = shell.run_builtin(&seg("frobnicate", &[]), &empty_env());
    assert_eq!(out.err, "frobnicate: command not found\n");
    assert_eq!(out.out, "");
}

#[test]
fn run_command_dispatches_builtin() {
    let shell = Shell::new(None);
    let r = shell.run_command(&seg("echo", &["x"]), &empty_env());
    match r {
        CommandOutcome::Builtin(o) => assert_eq!(o.out, "x\n"),
        _ => panic!("echo must run as a builtin"),
    }
}

#[test]
fn run_command_resolves_external() {
    let shell = Shell::new(None);
    let env = env_with_dirs(vec![bin_dir()]);
    let r = shell.run_command(&seg("cat", &[]), &env);
    assert!(matches!(&r, CommandOutcome::Spawn(p) if p == "/bin/cat"));
}

#[test]
fn run_command_reports_unresolved() {
    let shell = Shell::new(None);
    let r = shell.run_command(&seg("nosuch", &[]), &empty_env());
    assert!(matches!(&r, CommandOutcome::NotFound(m) if m == "nosuch: command not found\n"));
}

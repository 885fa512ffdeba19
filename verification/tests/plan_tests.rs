use rshell::ast::Redirection;
use rshell::{
    collect_path_executables, find_executable, is_executable, parse_pipeline, plan_pipeline,
    resolve_redirections, split_path_list, DirListing, FileEntry, InputWiring, OutputWiring, Shell,
};

#[test]
fn resolver_later_directive_wins() {
    let redirs = vec![
        Redirection::Stdout("a.txt".to_string()),
        Redirection::StdoutAppend("b.txt".to_string()),
        Redirection::Stderr("e.txt".to_string()),
    ];
    let plan = resolve_redirections(&redirs);
    let out = plan.out.unwrap();
    assert_eq!(out.path, "b.txt");
    assert!(out.append);
    let err = plan.err.unwrap();
    assert_eq!(err.path, "e.txt");
    assert!(!err.append);
    assert!(plan.input.is_none());
}

#[test]
fn resolver_truncate_then_append_modes() {
    let plan = resolve_redirections(&vec![Redirection::Stdout("out.txt".to_string())]);
    assert!(!plan.out.unwrap().append);
    let plan = resolve_redirections(&vec![Redirection::StdoutAppend("out.txt".to_string())]);
    assert!(plan.out.unwrap().append);
}

#[test]
fn resolver_keeps_streams_apart() {
    let plan = resolve_redirections(&vec![
        Redirection::StderrAppend("e.txt".to_string()),
        Redirection::Stdin("in.txt".to_string()),
    ]);
    assert!(plan.out.is_none());
    let err = plan.err.unwrap();
    assert_eq!(err.path, "e.txt");
    assert!(err.append);
    assert_eq!(plan.input.unwrap(), "in.txt");
}

#[test]
fn plan_wires_adjacent_segments_through_a_pipe() {
    let shell = Shell::new(None);
    let p = parse_pipeline("printf a | grep b").unwrap();
    let plan = plan_pipeline(&shell, &p);
    assert_eq!(plan.pipes, 1);
    assert_eq!(plan.segments.len(), 2);
    assert!(matches!(plan.segments[0].stdout, OutputWiring::Pipe(0)));
    assert!(matches!(plan.segments[0].stdin, InputWiring::Inherit));
    assert!(matches!(plan.segments[1].stdin, InputWiring::Pipe(0)));
    assert!(matches!(plan.segments[1].stdout, OutputWiring::Inherit));
    assert!(!plan.segments[0].builtin);
}

#[test]
fn plan_marks_builtin_segments() {
    let shell = Shell::new(None);
    let p = parse_pipeline("echo hi | cat").unwrap();
    let plan = plan_pipeline(&shell, &p);
    assert!(plan.segments[0].builtin);
    assert!(!plan.segments[1].builtin);
}

#[test]
fn plan_redirection_beats_pipe_wiring() {
    let shell = Shell::new(None);
    let p = parse_pipeline("echo hi > out.txt | cat < in.txt").unwrap();
    let plan = plan_pipeline(&shell, &p);
    assert_eq!(plan.pipes, 1);
    match &plan.segments[0].stdout {
        OutputWiring::File(d) => {
            assert_eq!(d.path, "out.txt");
            assert!(!d.append);
        },
        _ => panic!("explicit redirection must win over the pipe"),
    }
    assert!(matches!(&plan.segments[1].stdin, InputWiring::File(p) if p == "in.txt"));
}

#[test]
fn plan_single_segment_inherits_both_ends() {
    let shell = Shell::new(None);
    let p = parse_pipeline("ls -l").unwrap();
    let plan = plan_pipeline(&shell, &p);
    assert_eq!(plan.pipes, 0);
    assert!(matches!(plan.segments[0].stdin, InputWiring::Inherit));
    assert!(matches!(plan.segments[0].stdout, OutputWiring::Inherit));
    assert!(plan.segments[0].stderr.is_none());
}

#[test]
fn plan_stderr_redirection_goes_to_the_error_stream() {
    let shell = Shell::new(None);
    let p = parse_pipeline("cmd 2>> log.txt").unwrap();
    let plan = plan_pipeline(&shell, &p);
    assert!(matches!(plan.segments[0].stdout, OutputWiring::Inherit));
    let err = plan.segments[0].stderr.clone().unwrap();
    assert_eq!(err.path, "log.txt");
    assert!(err.append);
}

#[test]
fn find_executable_first_directory_wins() {
    let dirs = vec![
        DirListing {
            dir: "/usr/bin".to_string(),
            entries: vec![FileEntry { name: "cat".to_string(), mode: 0o755 }],
        },
        DirListing {
            dir: "/bin".to_string(),
            entries: vec![FileEntry { name: "cat".to_string(), mode: 0o755 }],
        },
    ];
    assert_eq!(find_executable("cat", &dirs).unwrap(), "/usr/bin/cat");
}

#[test]
fn find_executable_skips_non_executables() {
    let dirs = vec![
        DirListing {
            dir: "/a".to_string(),
            entries: vec![FileEntry { name: "tool".to_string(), mode: 0o644 }],
        },
        DirListing {
            dir: "/b".to_string(),
            entries: vec![FileEntry { name: "tool".to_string(), mode: 0o111 }],
        },
    ];
    assert_eq!(find_executable("tool", &dirs).unwrap(), "/b/tool");
    assert!(find_executable("other", &dirs).is_none());
}

#[test]
fn is_executable_checks_any_execute_bit() {
    assert!(is_executable(0o755));
    assert!(is_executable(0o100));
    assert!(is_executable(0o001));
    assert!(!is_executable(0o644));
    assert!(!is_executable(0));
}

#[test]
fn collect_path_executables_deduplicates() {
    let dirs = vec![
        DirListing {
            dir: "/a".to_string(),
            entries: vec![
                FileEntry { name: "x".to_string(), mode: 0o755 },
                FileEntry { name: "y".to_string(), mode: 0o644 },
            ],
        },
        DirListing {
            dir: "/b".to_string(),
            entries: vec![
                FileEntry { name: "x".to_string(), mode: 0o755 },
                FileEntry { name: "z".to_string(), mode: 0o711 },
            ],
        },
    ];
    let names = collect_path_executables(&dirs);
    assert_eq!(names, vec!["x".to_string(), "z".to_string()]);
}

#[test]
fn split_path_list_keeps_empty_pieces() {
    assert_eq!(split_path_list("/bin:/usr/bin"), vec!["/bin".to_string(), "/usr/bin".to_string()]);
    assert_eq!(split_path_list("a::b"), vec!["a".to_string(), "".to_string(), "b".to_string()]);
    assert_eq!(split_path_list(""), vec!["".to_string()]);
}

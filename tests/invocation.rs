use acgs_launcher::{
    core_status, java_version_invocation, jar_args, join_words, shell_invocation, stdin_payload,
    PipedSession, PipedStep, core_dir_segments, core_file_name, setup_marker_segments,
    terminal_invocation, tool_invocation, CoreStatus, LaunchError, Platform,
};

fn strings(v: &[&str]) -> Vec<String> {
    v.iter().map(|s| s.to_string()).collect()
}

fn present(path: &str) -> CoreStatus {
    core_status(path.to_string(), Some(Ok(1234))).ok().unwrap()
}

#[test]
fn locate_absent_artifact() {
    let s = core_status("/docs/acgsnetwork/core/cmcl.jar".to_string(), None).ok().unwrap();
    assert!(!s.exists);
    assert_eq!(s.path, None);
    assert_eq!(s.size, None);
}

#[test]
fn locate_present_artifact() {
    let s = present("/docs/acgsnetwork/core/cmcl.jar");
    assert!(s.exists);
    assert_eq!(s.path, Some("/docs/acgsnetwork/core/cmcl.jar".to_string()));
    assert_eq!(s.size, Some(1234));
}

#[test]
fn locate_unreadable_metadata() {
    match core_status("p".to_string(), Some(Err("denied".to_string()))) {
        Err(LaunchError::Io(e)) => assert_eq!(e, "denied"),
        _ => panic!("expected an io failure"),
    }
}

#[test]
fn jar_arguments_keep_caller_arguments_verbatim() {
    let args = strings(&["install", "1.20; rm -rf /", "--name=a b"]);
    let r = jar_args(&"/x/cmcl.jar".to_string(), &args);
    assert_eq!(
        r,
        strings(&[
            "-Dfile.encoding=UTF-8",
            "-Dconsole.encoding=UTF-8",
            "-jar",
            "/x/cmcl.jar",
            "install",
            "1.20; rm -rf /",
            "--name=a b"
        ])
    );
}

#[test]
fn tool_invocation_sets_code_page_on_windows_only() {
    let core = present("C:\\cmcl.jar");
    let w = tool_invocation(&core, &strings(&["-l"]), Platform::Windows).ok().unwrap();
    assert_eq!(w.program, "java");
    assert_eq!(w.args.len(), 5);
    assert_eq!(w.env, vec![("CHCP".to_string(), "65001".to_string())]);
    let u = tool_invocation(&core, &strings(&["-l"]), Platform::Unix).ok().unwrap();
    assert!(u.env.is_empty());
}

#[test]
fn tool_invocation_needs_the_artifact() {
    let absent = core_status("p".to_string(), None).ok().unwrap();
    assert!(matches!(
        tool_invocation(&absent, &Vec::new(), Platform::Unix),
        Err(LaunchError::CoreMissing)
    ));
    let odd = CoreStatus { exists: true, path: None, size: None };
    assert!(matches!(
        tool_invocation(&odd, &Vec::new(), Platform::Unix),
        Err(LaunchError::CorePathUnknown)
    ));
}

#[test]
fn terminal_invocation_builds_pause_suffixed_line() {
    let core = present("C:\\cmcl.jar");
    let r = terminal_invocation(&core, &strings(&["account", "--login"]), Platform::Windows)
        .ok()
        .unwrap();
    assert_eq!(r.program, "cmd.exe");
    assert_eq!(
        r.args,
        strings(&[
            "/c",
            "start",
            "/wait",
            "cmd.exe",
            "/c",
            "java -Dfile.encoding=UTF-8 -Dconsole.encoding=UTF-8 -jar C:\\cmcl.jar account --login || pause"
        ])
    );
}

#[test]
fn terminal_invocation_is_unsupported_elsewhere() {
    let core = present("/cmcl.jar");
    assert!(matches!(
        terminal_invocation(&core, &Vec::new(), Platform::Unix),
        Err(LaunchError::UnsupportedPlatform)
    ));
}

#[test]
fn piped_sort_receives_lines() {
    let inv = shell_invocation(&"sort".to_string(), Platform::Unix);
    assert_eq!(inv.program, "sh");
    assert_eq!(inv.args, strings(&["-c", "sort"]));
    assert_eq!(stdin_payload(&strings(&["b", "a"])), "b\na\n");
    assert_eq!(stdin_payload(&Vec::new()), "");
}

#[test]
fn windows_shell_uses_cmd() {
    let inv = shell_invocation(&"dir".to_string(), Platform::Windows);
    assert_eq!(inv.program, "cmd.exe");
    assert_eq!(inv.args, strings(&["/c", "dir"]));
}

#[test]
fn words_join_with_single_spaces() {
    assert_eq!(join_words(&Vec::new()), "");
    assert_eq!(join_words(&strings(&["a"])), "a");
    assert_eq!(join_words(&strings(&["a", "b", "c"])), "a b c");
}

#[test]
fn version_query_invocation() {
    let inv = java_version_invocation();
    assert_eq!(inv.program, "java");
    assert_eq!(inv.args, strings(&["-version"]));
    assert!(inv.env.is_empty());
}

#[test]
fn piped_session_writes_lines_then_closes() {
    let mut s = PipedSession::new(strings(&["b", "a"]));
    let mut written = String::new();
    let mut steps = Vec::new();
    loop {
        match s.next_step() {
            PipedStep::WriteLine(t) => {
                written.push_str(&t);
                steps.push("write");
            }
            PipedStep::CloseInput => steps.push("close"),
            PipedStep::CollectOutput => break,
        }
    }
    assert_eq!(written, "b\na\n");
    assert_eq!(steps, vec!["write", "write", "close"]);
    assert!(matches!(s.next_step(), PipedStep::CollectOutput));
}

#[test]
fn piped_session_without_input_only_closes() {
    let mut s = PipedSession::new(Vec::new());
    assert!(matches!(s.next_step(), PipedStep::CloseInput));
    assert!(matches!(s.next_step(), PipedStep::CollectOutput));
    assert!(matches!(s.next_step(), PipedStep::CollectOutput));
}

#[test]
fn artifact_layout() {
    assert_eq!(core_dir_segments(), strings(&["acgsnetwork", "core"]));
    assert_eq!(core_file_name(), "cmcl.jar");
    assert_eq!(setup_marker_segments(), strings(&["acgsnetwork", "oobe.lock"]));
}

use apipe::output::Output;
use apipe::pipe::StdinWiring;
use apipe::APipeError;
use apipe::CommandPipe;

#[test]
fn test_try_from_empty_str() {
    let pipe = CommandPipe::try_from("");

    if let Err(_) = pipe {
        panic!("Pipe should be empty!")
    };
}

#[test]
fn test_try_from_invalid_pipe() {
    let pipe = CommandPipe::try_from(" | ");

    if let Ok(_) = pipe {
        panic!("Shouldn't be able to parse invalid pipe!")
    };
}

#[test]
fn try_from_parses_both_stages() {
    let pipe = CommandPipe::try_from(r#"echo "This is a test." | grep -Eo \w\w\sa[^.]*"#)
        .unwrap();
    assert_eq!(pipe.len(), 2);
    assert_eq!(pipe.get_command(0).get_program(), "echo");
    assert_eq!(
        pipe.get_command(0).get_args(),
        &vec![r#""This is a test.""#.to_string()]
    );
    assert_eq!(pipe.get_command(1).get_program(), "grep");
    assert_eq!(
        pipe.get_command(1).get_args(),
        &vec!["-Eo".to_string(), r"\w\w\sa[^.]*".to_string()]
    );
}

#[test]
fn try_from_single_command_unpaired_quote() {
    let pipe = CommandPipe::try_from(r#"echo "This is a test."#).unwrap();
    assert_eq!(pipe.len(), 1);
    assert_eq!(pipe.get_command(0).get_program(), "echo");
    assert_eq!(
        pipe.get_command(0).get_args(),
        &vec![
            "This".to_string(),
            "is".to_string(),
            "a".to_string(),
            "test.".to_string()
        ]
    );
}

#[test]
fn try_from_reports_first_blank_segment() {
    match CommandPipe::try_from("ls -la |  | wc") {
        Err(APipeError::MissingCommand(segment)) => assert_eq!(segment, "  "),
        _ => panic!("a blank span between separators must fail the parse"),
    }
}

#[test]
fn try_from_trailing_separator_adds_no_stage() {
    let pipe = CommandPipe::try_from("ls -la |wc").unwrap();
    assert_eq!(pipe.len(), 2);
    let pipe = CommandPipe::try_from("ls -la|").unwrap();
    assert_eq!(pipe.len(), 1);
}

#[test]
fn default_pipe_is_empty_and_building() {
    let pipe: CommandPipe = Default::default();
    assert_eq!(pipe.len(), 0);
    assert!(pipe.is_building());
}

#[test]
fn spawning_an_empty_pipe_is_refused() {
    let mut pipe = CommandPipe::new();
    assert!(matches!(pipe.begin_spawn(), Err(APipeError::EmptyPipe)));
    assert!(pipe.is_building());
}

#[test]
fn output_before_any_run_is_refused() {
    let mut empty = CommandPipe::new();
    assert!(matches!(empty.output(), Err(APipeError::EmptyPipe)));

    let mut built = CommandPipe::new().add_command("echo");
    assert!(matches!(
        built.output(),
        Err(APipeError::NoRunningProcesses)
    ));
}

#[test]
fn launch_requests_wire_the_stages() {
    let mut pipe = CommandPipe::new()
        .add_command("echo")
        .arg("This is a test.")
        .unwrap()
        .add_command("grep")
        .args(&vec!["-Eo".to_string(), r"\w\w\sa[^.]*".to_string()])
        .unwrap();
    pipe.begin_spawn().unwrap();
    assert!(pipe.is_running());

    let first = pipe.next_launch().unwrap();
    assert_eq!(first.program, "echo");
    assert_eq!(first.args, vec!["This is a test.".to_string()]);
    assert_eq!(first.stdin, StdinWiring::Closed);
    assert!(first.capture_stdout);
    assert!(!first.capture_stderr);
    pipe.note_launched();

    let second = pipe.next_launch().unwrap();
    assert_eq!(second.program, "grep");
    assert_eq!(
        second.args,
        vec!["-Eo".to_string(), r"\w\w\sa[^.]*".to_string()]
    );
    assert_eq!(second.stdin, StdinWiring::FromPreviousStage);
    assert!(second.capture_stdout);
    assert!(second.capture_stderr);
    pipe.note_launched();

    assert!(pipe.next_launch().is_none());
}

#[test]
fn completed_run_reflects_the_terminal_stage() {
    let mut pipe = CommandPipe::new()
        .add_command("echo")
        .add_command("grep")
        .add_command("sed");
    pipe.begin_spawn().unwrap();
    for _ in 0..3 {
        assert!(pipe.next_launch().is_some());
        pipe.note_launched();
    }
    pipe.complete(
        Some(0),
        "is a test\n".as_bytes().to_vec(),
        "warning\n".as_bytes().to_vec(),
    );
    assert!(pipe.is_completed());

    let out = pipe.output().unwrap();
    assert_eq!(out.status_code(), Some(0));
    assert_eq!(out.stdout(), "is a test\n".as_bytes());
    assert_eq!(out.stderr(), "warning\n".as_bytes());
}

#[test]
fn output_is_idempotent() {
    let mut pipe = CommandPipe::new().add_command("echo");
    pipe.begin_spawn().unwrap();
    pipe.next_launch().unwrap();
    pipe.note_launched();
    pipe.complete(Some(0), "This is a test.\n".as_bytes().to_vec(), Vec::new());

    let first = pipe.output().unwrap();
    let second = pipe.output().unwrap();
    assert_eq!(first.status_code(), second.status_code());
    assert_eq!(first.stdout(), second.stdout());
    assert_eq!(first.stderr(), second.stderr());
}

#[test]
fn launch_failure_is_recorded_and_reported_again() {
    let mut pipe = CommandPipe::new().add_command("no-such-program");
    pipe.begin_spawn().unwrap();
    pipe.next_launch().unwrap();
    let e = pipe.launch_failed("entity not found");
    assert!(matches!(e, APipeError::FailedExecution(m) if m == "entity not found"));
    assert!(pipe.is_failed());
    assert!(matches!(
        pipe.output(),
        Err(APipeError::FailedExecution(m)) if m == "entity not found"
    ));
}

#[test]
fn wait_failure_is_recorded() {
    let mut pipe = CommandPipe::new().add_command("echo");
    pipe.begin_spawn().unwrap();
    pipe.next_launch().unwrap();
    pipe.note_launched();
    let e = pipe.wait_failed("bookkeeping lost the child");
    assert!(
        matches!(e, APipeError::TerminatedChildCommand(m) if m == "bookkeeping lost the child")
    );
    assert!(pipe.is_failed());
}

#[test]
fn missing_stdout_is_recorded() {
    let mut pipe = CommandPipe::new().add_command("echo").add_command("grep");
    pipe.begin_spawn().unwrap();
    pipe.next_launch().unwrap();
    pipe.note_launched();
    let e = pipe.missing_stdout();
    assert!(matches!(e, APipeError::NoStdout));
    assert!(matches!(pipe.output(), Err(APipeError::NoStdout)));
}

#[test]
fn output_snapshot_accessors() {
    let out = Output::new(None, vec![1u8, 2, 3], vec![9u8]);
    assert_eq!(out.status_code(), None);
    assert_eq!(out.stdout(), &[1u8, 2, 3]);
    assert_eq!(out.stderr(), &[9u8]);
    let copy = out.duplicate();
    assert_eq!(copy.status_code(), None);
    assert_eq!(copy.stdout(), out.stdout());
    assert_eq!(copy.stderr(), out.stderr());
}

use apipe::APipeError;
use apipe::Command;
use apipe::CommandPipe;

#[test]
fn test_literal_pipe() {
    let pipe = CommandPipe::from_pair(
        Command::parse_str(r#"echo "This is a test.""#).unwrap(),
        Command::parse_str(r#"grep -Eo "\w\w\sa[^.]*""#).unwrap(),
    )
    .pipe(Command::parse_str(r#"sed "s/test/TEST/""#).unwrap());

    assert_eq!(pipe.get_command(0).get_program(), "echo");
    assert_eq!(
        pipe.get_command(0).get_args(),
        &vec![r#""This is a test.""#.to_string()]
    );
    assert_eq!(pipe.get_command(1).get_program(), "grep");
    assert_eq!(
        pipe.get_command(1).get_args(),
        &vec!["-Eo".to_string(), r#""\w\w\sa[^.]*""#.to_string()]
    );
    assert_eq!(pipe.get_command(2).get_program(), "sed");
    assert_eq!(
        pipe.get_command(2).get_args(),
        &vec![r#""s/test/TEST/""#.to_string()]
    );
}

#[test]
fn test_arg() {
    let pipe = CommandPipe::new()
        .add_command("ls")
        .arg("-la")
        .unwrap()
        .arg("~/Documents")
        .unwrap();

    assert_eq!(
        pipe.get_command(0).get_args(),
        &vec!["-la".to_string(), "~/Documents".to_string()]
    );
}

#[test]
fn test_args() {
    let pipe = CommandPipe::new()
        .add_command("ls")
        .args(&vec!["-la".to_string(), "~/Documents".to_string()])
        .unwrap();

    assert_eq!(
        pipe.get_command(0).get_args(),
        &vec!["-la".to_string(), "~/Documents".to_string()]
    );
}

#[test]
fn arg_without_command_is_an_error() {
    assert!(matches!(
        CommandPipe::new().arg("ls"),
        Err(APipeError::EmptyPipe)
    ));
}

#[test]
fn args_without_command_is_an_error() {
    assert!(matches!(
        CommandPipe::new().args(&vec!["-la".to_string()]),
        Err(APipeError::EmptyPipe)
    ));
}

#[test]
fn command_builder_chains() {
    let cmd = Command::new("grep")
        .arg("-Eo")
        .args(&vec![r"\w\w\sa[^.]*".to_string()]);
    assert_eq!(cmd.get_program(), "grep");
    assert_eq!(
        cmd.get_args(),
        &vec!["-Eo".to_string(), r"\w\w\sa[^.]*".to_string()]
    );
}

#[test]
fn pipe_appends_downstream() {
    let pipe = CommandPipe::new().pipe(Command::new("grep"));
    assert_eq!(pipe.len(), 1);
    assert_eq!(pipe.get_command(0).get_program(), "grep");
}

#[test]
fn from_pair_keeps_order() {
    let pipe = CommandPipe::from_pair(
        Command::new("echo").arg("This is a test."),
        Command::new("grep").arg("-Eo"),
    );
    assert_eq!(pipe.len(), 2);
    assert_eq!(pipe.get_command(0).get_program(), "echo");
    assert_eq!(pipe.get_command(1).get_program(), "grep");
}

#[test]
fn error_messages() {
    assert_eq!(
        APipeError::MissingCommand(" | ".to_string()).message(),
        "Tried to parse empty command string:  | "
    );
    assert_eq!(APipeError::EmptyPipe.message(), "The pipe is empty.");
    assert_eq!(
        APipeError::FailedExecution("nowhere".to_string()).message(),
        "Failed to spawn child command: nowhere"
    );
    assert_eq!(
        APipeError::TerminatedChildCommand("lost".to_string()).message(),
        "Child process exited with error code: lost"
    );
    assert_eq!(
        APipeError::NoStdout.message(),
        "No stdout to pipe into the next command."
    );
    assert_eq!(
        APipeError::NoRunningProcesses.message(),
        "No running processes."
    );
}

#[test]
fn error_reason_accessor() {
    assert_eq!(
        APipeError::FailedExecution("denied".to_string()).reason(),
        Some(&"denied".to_string())
    );
    assert_eq!(
        APipeError::TerminatedChildCommand("gone".to_string()).reason(),
        Some(&"gone".to_string())
    );
    assert_eq!(APipeError::EmptyPipe.reason(), None);
    assert_eq!(APipeError::MissingCommand("x".to_string()).reason(), None);
    assert_eq!(APipeError::NoStdout.reason(), None);
    assert_eq!(APipeError::NoRunningProcesses.reason(), None);
}

#[test]
fn error_duplicate_preserves_variant() {
    let e = APipeError::MissingCommand("x".to_string());
    assert!(matches!(e.duplicate(), APipeError::MissingCommand(m) if m == "x"));
    assert!(matches!(
        APipeError::NoStdout.duplicate(),
        APipeError::NoStdout
    ));
}

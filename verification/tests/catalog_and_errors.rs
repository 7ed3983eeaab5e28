//! Tests of the shell-command catalog lookup and of the error renderings.

use mcp_magnet::errors::VerifyError;
use mcp_magnet::shell::{get_shell_command, CommandResult, ShellCommand, ShellCommandEvent};

fn catalog() -> Vec<ShellCommand> {
    vec![
        ShellCommand {
            name: "list".to_string(),
            command: "ls".to_string(),
            args: vec!["-la".to_string()],
        },
        ShellCommand {
            name: "where".to_string(),
            command: "pwd".to_string(),
            args: vec![],
        },
        ShellCommand {
            name: "list".to_string(),
            command: "ls".to_string(),
            args: vec!["-a".to_string()],
        },
    ]
}

#[test]
fn lookup_finds_the_first_entry_with_the_name() {
    let commands = catalog();
    let found = get_shell_command(&commands, "list").expect("entry exists");
    assert_eq!(found.command, "ls");
    assert_eq!(found.args, vec!["-la".to_string()]);
    let found = get_shell_command(&commands, "where").expect("entry exists");
    assert_eq!(found.command, "pwd");
    assert!(found.args.is_empty());
}

#[test]
fn lookup_misses_an_absent_name() {
    let commands = catalog();
    assert!(get_shell_command(&commands, "absent").is_none());
    assert!(get_shell_command(&commands, "lis").is_none());
    assert!(get_shell_command(&commands, "").is_none());
    assert!(get_shell_command(&Vec::new(), "list").is_none());
}

#[test]
fn command_result_and_events_carry_their_fields() {
    let result = CommandResult {
        code: 0,
        stdout: "done".to_string(),
        stderr: String::new(),
    };
    assert_eq!(result.code, 0);
    assert_eq!(result.stdout, "done");
    let event = ShellCommandEvent::Finished { code: 1 };
    assert!(matches!(event, ShellCommandEvent::Finished { code: 1 }));
    let event = ShellCommandEvent::Stderr {
        line: "oops".to_string(),
    };
    assert!(matches!(event, ShellCommandEvent::Stderr { line } if line == "oops"));
}

#[test]
fn fixed_error_messages_render_exactly() {
    assert_eq!(
        VerifyError::UnrecognizedFormat.message(),
        "unrecognized header"
    );
    assert_eq!(
        VerifyError::EmptyCertificateBundle.message(),
        "no certificates found in key material"
    );
    assert_eq!(
        VerifyError::KeyMaterialParseError("bad key".to_string()).message(),
        "bad key"
    );
    assert_eq!(
        VerifyError::SignatureParseError("bad sig".to_string()).message(),
        "bad sig"
    );
}

#[test]
fn aggregated_failure_lists_every_entry_in_order() {
    let failure = VerifyError::VerificationFailed(vec![
        "first candidate failed".to_string(),
        "second candidate failed".to_string(),
    ]);
    assert_eq!(
        failure.message(),
        "Signature verification failed:\nfirst candidate failed\nsecond candidate failed"
    );
    let lone = VerifyError::VerificationFailed(vec!["only one".to_string()]);
    assert_eq!(lone.message(), "Signature verification failed:\nonly one");
}

use batch_exec::coordinator::{Action, Coordinator, HandleResult};
use batch_exec::decimal::{push_decimal, push_signed_decimal};
use batch_exec::error::{BatchError, ErrorKind};
use batch_exec::outcome::TerminationOutcome;
use batch_exec::program::conclude;
use batch_exec::record::{configured_record, outcome_record, Level, LogRecord};

fn commands(list: &[&str]) -> Vec<String> {
    list.iter().map(|s| s.to_string()).collect()
}

/// Drives a batch to its end, handing out `results` to the waits in order,
/// and returns the actions asked for and the diagnostics written.
fn drive(cmds: Vec<String>, results: Vec<HandleResult>) -> (Vec<Action>, Vec<String>, Coordinator) {
    let mut c = Coordinator::new(cmds);
    let mut actions = Vec::new();
    let mut diagnostics = Vec::new();
    let mut pending = results.into_iter();
    loop {
        let a = c.next_action();
        actions.push(a);
        match a {
            Action::StartPool(_) => c.pool_started(),
            Action::Submit(_) => c.submitted(),
            Action::Wait(_) => {
                if let Some(d) = c.resolved(pending.next().unwrap()) {
                    diagnostics.push(d);
                }
            }
            Action::Finish => break,
        }
    }
    (actions, diagnostics, c)
}

fn decimal(n: u64) -> String {
    let mut s = String::new();
    push_decimal(&mut s, n);
    s
}

fn signed(v: i64) -> String {
    let mut s = String::from("v=");
    push_signed_decimal(&mut s, v);
    s
}

fn launch_error() -> BatchError {
    BatchError::launch_failed("No such file or directory".to_string())
}

#[test]
fn decimal_of_numbers() {
    assert_eq!(decimal(0), "0");
    assert_eq!(decimal(7), "7");
    assert_eq!(decimal(10), "10");
    assert_eq!(decimal(1234), "1234");
    assert_eq!(decimal(u64::MAX), "18446744073709551615");
}

#[test]
fn decimal_of_signed_numbers() {
    assert_eq!(signed(0), "v=0");
    assert_eq!(signed(42), "v=42");
    assert_eq!(signed(-5), "v=-5");
    assert_eq!(signed(i64::MIN), "v=-9223372036854775808");
}

#[test]
fn outcome_texts() {
    assert_eq!(TerminationOutcome::Exited(0).describe(), "Exited(0)");
    assert_eq!(TerminationOutcome::Exited(7).describe(), "Exited(7)");
    assert_eq!(TerminationOutcome::Signaled(9).describe(), "Signaled(9)");
    assert_eq!(TerminationOutcome::Other(-3).describe(), "Other(-3)");
    assert_eq!(TerminationOutcome::Undetermined.describe(), "Undetermined");
}

#[test]
fn outcome_success() {
    assert!(TerminationOutcome::Exited(0).success());
    assert!(!TerminationOutcome::Exited(1).success());
    assert!(!TerminationOutcome::Signaled(0).success());
    assert!(!TerminationOutcome::Undetermined.success());
}

#[test]
fn exit_code_is_logged() {
    let r0 = outcome_record("exit 0", &Ok(TerminationOutcome::Exited(0)));
    assert_eq!(
        r0,
        LogRecord { level: Level::Info, message: "Shell terminated [exit 0], exit code: Exited(0)".to_string() }
    );
    let r7 = outcome_record("exit 7", &Ok(TerminationOutcome::Exited(7)));
    assert_eq!(r7.level, Level::Info);
    assert_eq!(r7.message, "Shell terminated [exit 7], exit code: Exited(7)");
    let code: u32 = r7.message["Shell terminated [exit 7], exit code: Exited(".len()..r7.message.len() - 1]
        .parse()
        .unwrap();
    assert_eq!(code, 7);
}

#[test]
fn launch_failure_is_logged_as_error() {
    let r = outcome_record("", &Err(launch_error()));
    assert_eq!(r.level, Level::Error);
    assert_eq!(r.message, "Shell error []: Unable to join shell process: No such file or directory");
}

#[test]
fn configured_record_is_info() {
    let r = configured_record();
    assert_eq!(r.level, Level::Info);
    assert_eq!(r.message, "Completed configuration initialization!");
}

#[test]
fn error_chain_and_report() {
    let inner = BatchError::caused_by(ErrorKind::Setup, "inner".to_string(), "root".to_string());
    let outer = inner.wrap(ErrorKind::Setup, "outer".to_string());
    assert_eq!(outer.message, "outer");
    assert_eq!(outer.causes, vec!["inner".to_string(), "root".to_string()]);
    assert_eq!(outer.summary(), "outer: inner: root");
    assert_eq!(
        outer.report_lines(),
        vec!["Error: outer".to_string(), "- Caused by: inner".to_string(), "- Caused by: root".to_string()]
    );
    let bare = BatchError::new(ErrorKind::WaitFailure, "alone".to_string());
    assert_eq!(bare.summary(), "alone");
    assert_eq!(bare.report_lines(), vec!["Error: alone".to_string()]);
}

#[test]
fn setup_error_messages() {
    let e = BatchError::config_parse_failed("processes = 3", "invalid type".to_string());
    assert_eq!(e.kind, ErrorKind::Setup);
    assert_eq!(e.message, "Unable to parse config as required toml format: processes = 3");
    assert_eq!(e.causes, vec!["invalid type".to_string()]);
    let o = BatchError::config_open_failed("a.toml", "not found".to_string());
    assert_eq!(o.message, "Unable to open config file path at 'a.toml'");
    let l = BatchError::logger_init_failed("log.yml", "bad".to_string());
    assert_eq!(l.message, "Unable to initialize the logger with the given config file at 'log.yml'");
    assert_eq!(BatchError::config_read_failed("io".to_string()).message, "Unable to read config file into string");
    let w = BatchError::wait_failed("panicked".to_string());
    assert_eq!(w.kind, ErrorKind::WaitFailure);
    assert_eq!(launch_error().kind, ErrorKind::LaunchFailure);
}

#[test]
fn empty_batch_does_nothing() {
    let (actions, diagnostics, c) = drive(Vec::new(), Vec::new());
    assert_eq!(actions, vec![Action::Finish]);
    assert!(diagnostics.is_empty());
    assert!(c.results().is_empty());
    assert!(c.is_done());
}

#[test]
fn each_command_submitted_and_waited_once() {
    let cmds = commands(&["exit 0", "exit 1", "exit 2"]);
    let results: Vec<HandleResult> =
        (0..3).map(|i| HandleResult::Completed(TerminationOutcome::Exited(i))).collect();
    let (actions, diagnostics, c) = drive(cmds, results.clone());
    assert_eq!(
        actions,
        vec![
            Action::StartPool(3),
            Action::Submit(0),
            Action::Submit(1),
            Action::Submit(2),
            Action::Wait(0),
            Action::Wait(1),
            Action::Wait(2),
            Action::Finish,
        ]
    );
    assert!(diagnostics.is_empty());
    assert_eq!(c.results(), &results);
    assert_eq!(c.command(1), "exit 1");
}

#[test]
fn slow_and_fast_commands_both_reported() {
    let cmds = commands(&["sleep 2", "exit 0"]);
    let results = vec![
        HandleResult::Completed(TerminationOutcome::Exited(0)),
        HandleResult::Completed(TerminationOutcome::Exited(0)),
    ];
    let (actions, _, c) = drive(cmds, results);
    assert_eq!(actions.iter().filter(|a| matches!(a, Action::Wait(_))).count(), 2);
    assert_eq!(c.results().len(), 2);
    assert!(c.is_done());
}

#[test]
fn failures_do_not_stop_other_commands() {
    let cmds = commands(&["", "exit 0", "exit 7"]);
    let results = vec![
        HandleResult::from_run(Err(launch_error())),
        HandleResult::WaitFailed(BatchError::wait_failed("worker panicked".to_string())),
        HandleResult::from_run(Ok(TerminationOutcome::Exited(7))),
    ];
    let (actions, diagnostics, c) = drive(cmds, results.clone());
    assert_eq!(actions.len(), 8);
    assert_eq!(c.results(), &results);
    assert_eq!(
        diagnostics,
        vec!["Error waiting for a command's handle: Unable to observe the command's handle: worker panicked".to_string()]
    );
    assert_eq!(results[0], HandleResult::LaunchFailed(launch_error()));
    assert_eq!(results[2], HandleResult::Completed(TerminationOutcome::Exited(7)));
}

#[test]
fn repeated_runs_have_same_structure() {
    let cmds = commands(&["echo a", "exit 3"]);
    let first = vec![
        HandleResult::Completed(TerminationOutcome::Exited(0)),
        HandleResult::Completed(TerminationOutcome::Exited(3)),
    ];
    let second = vec![
        HandleResult::Completed(TerminationOutcome::Signaled(9)),
        HandleResult::LaunchFailed(launch_error()),
    ];
    let (a1, _, c1) = drive(cmds.clone(), first);
    let (a2, _, c2) = drive(cmds, second);
    assert_eq!(a1, a2);
    assert_eq!(c1.results().len(), c2.results().len());
}

#[test]
fn successful_run_exits_zero() {
    let exit = conclude(&Ok(()));
    assert_eq!(exit.code, 0);
    assert_eq!(exit.stdout, vec!["Program completed!".to_string()]);
    assert!(exit.stderr.is_empty());
}

#[test]
fn setup_failure_exits_one() {
    let e = BatchError::config_parse_failed("processes = [", "expected a value".to_string());
    let exit = conclude(&Err(e));
    assert_eq!(exit.code, 1);
    assert!(exit.stdout.is_empty());
    assert_eq!(
        exit.stderr,
        vec![
            "Error: Unable to parse config as required toml format: processes = [".to_string(),
            "- Caused by: expected a value".to_string(),
        ]
    );
}

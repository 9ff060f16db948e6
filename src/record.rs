//! The log records that a batch writes.
use vstd::prelude::*;
use crate::decimal::{digits, value_of, lemma_value_of_digits};
use crate::error::BatchError;
use crate::outcome::TerminationOutcome;

verus! {

/// The severity of a log record.
#[derive(Clone, Copy, Debug, PartialEq, Eq, Structural)]
pub enum Level {
    Info,
    Error,
}

/// One line for the log, with its severity.
#[derive(Clone, Debug, PartialEq, Eq)]
pub struct LogRecord {
    pub level: Level,
    pub message: String,
}

/// What the log says of a command whose process terminated, before the
/// outcome itself.
pub open spec fn terminated_prefix(command: Seq<char>) -> Seq<char> {
    "Shell terminated ["@ + command + "], exit code: "@
}

/// What the log says of a command whose launch failed, before the error.
pub open spec fn failed_prefix(command: Seq<char>) -> Seq<char> {
    "Shell error ["@ + command + "]: "@
}

/// The message logged for the result of running `command`.
pub open spec fn outcome_message(
    command: Seq<char>,
    result: Result<TerminationOutcome, BatchError>,
) -> Seq<char> {
    match result {
        Ok(o) => terminated_prefix(command) + o.text(),
        Err(e) => failed_prefix(command) + e.summary_text(),
    }
}

/// The severity at which the result of a command is logged: an outcome is
/// information, a launch failure an error.
pub open spec fn outcome_level(result: Result<TerminationOutcome, BatchError>) -> Level {
    match result {
        Ok(_) => Level::Info,
        Err(_) => Level::Error,
    }
}

/// The record to log once `command` has run: its text with the outcome, or
/// with the error and its causes.
pub fn outcome_record(command: &str, result: &Result<TerminationOutcome, BatchError>) -> (r:
    LogRecord)
    ensures
        r.level == outcome_level(*result),
        r.message@ == outcome_message(command@, *result),
{
    proof {
        reveal_strlit("Shell terminated [");
        reveal_strlit("], exit code: ");
        reveal_strlit("Shell error [");
        reveal_strlit("]: ");
    }
    match result {
        Ok(o) => {
            let mut m = String::from_str("Shell terminated [");
            m.append(command);
            m.append("], exit code: ");
            o.push_text(&mut m);
            assert(m@ =~= outcome_message(command@, *result));
            LogRecord { level: Level::Info, message: m }
        },
        Err(e) => {
            let mut m = String::from_str("Shell error [");
            m.append(command);
            m.append("]: ");
            let s = e.summary();
            m.append(s.as_str());
            assert(m@ =~= outcome_message(command@, *result));
            LogRecord { level: Level::Error, message: m }
        },
    }
}

/// The record logged once the configuration has been read.
pub fn configured_record() -> (r: LogRecord)
    ensures
        r.level == Level::Info,
        r.message@ == "Completed configuration initialization!"@,
{
    proof {
        reveal_strlit("Completed configuration initialization!");
    }
    LogRecord { level: Level::Info, message: String::from_str("Completed configuration initialization!") }
}

/// The exit code that the log shows for a command that exited normally is
/// the code it exited with: read back from the digits between `Exited(` and
/// the closing parenthesis, it is `c`.
pub proof fn lemma_logged_exit_code(command: Seq<char>, c: u32)
    ensures
        ({
            let m = outcome_message(command, Ok(TerminationOutcome::Exited(c)));
            let start = (terminated_prefix(command).len() + "Exited("@.len()) as int;
            &&& m == terminated_prefix(command) + "Exited("@ + digits(c as nat) + ")"@
            &&& value_of(m.subrange(start, m.len() - 1)) == c
        }),
{
    let m = outcome_message(command, Ok(TerminationOutcome::Exited(c)));
    let start = (terminated_prefix(command).len() + "Exited("@.len()) as int;
    reveal_strlit("Exited(");
    reveal_strlit(")");
    assert(m =~= terminated_prefix(command) + "Exited("@ + digits(c as nat) + ")"@);
    assert(m.subrange(start, m.len() - 1) =~= digits(c as nat));
    lemma_value_of_digits(c as nat);
}

} // verus!

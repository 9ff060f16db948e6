//! How the program ends: its exit code and what it writes.
use vstd::prelude::*;
use crate::error::{BatchError, texts, report_text};

verus! {

/// How the program ends.
#[derive(Clone, Debug, PartialEq, Eq)]
pub struct Exit {
    /// The process's exit code.
    pub code: i32,
    /// Lines for the standard output.
    pub stdout: Vec<String>,
    /// Lines for the error output.
    pub stderr: Vec<String>,
}

/// How the program ends after `run`. A run whose setup succeeded ends with
/// code 0 whatever its commands did; a setup failure ends with code 1 and
/// the report of the error and its causes on the error output.
pub fn conclude(run: &Result<(), BatchError>) -> (r: Exit)
    ensures
        run is Ok ==> r.code == 0 && texts(r.stdout@) == seq!["Program completed!"@]
            && r.stderr@.len() == 0,
        run is Err ==> r.code == 1 && r.stdout@.len() == 0 && texts(r.stderr@) == report_text(
            run->Err_0.message@,
            texts(run->Err_0.causes@),
        ),
{
    proof {
        reveal_strlit("Program completed!");
    }
    match run {
        Ok(()) => {
            let mut out: Vec<String> = Vec::new();
            out.push(String::from_str("Program completed!"));
            assert(texts(out@) =~= seq!["Program completed!"@]);
            Exit { code: 0, stdout: out, stderr: Vec::new() }
        },
        Err(e) => Exit { code: 1, stdout: Vec::new(), stderr: e.report_lines() },
    }
}

} // verus!

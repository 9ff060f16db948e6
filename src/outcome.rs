//! How a command's process ended.
use vstd::prelude::*;
use crate::decimal::{digits, signed_digits, push_decimal, push_signed_decimal};

verus! {

/// The termination of one command's process.
#[derive(Clone, Copy, Debug, PartialEq, Eq, Structural)]
pub enum TerminationOutcome {
    /// The process exited with this code.
    Exited(u32),
    /// The process was terminated by this signal.
    Signaled(u8),
    /// An exit status that neither an exit code nor a signal describes.
    Other(i32),
    /// The process ended, but its status could not be determined.
    Undetermined,
}

impl TerminationOutcome {
    /// The text that stands for this outcome in the log: the variant's name,
    /// followed by its number in parentheses when it has one.
    pub open spec fn text(self) -> Seq<char> {
        match self {
            TerminationOutcome::Exited(c) => "Exited("@ + digits(c as nat) + ")"@,
            TerminationOutcome::Signaled(s) => "Signaled("@ + digits(s as nat) + ")"@,
            TerminationOutcome::Other(v) => "Other("@ + signed_digits(v as int) + ")"@,
            TerminationOutcome::Undetermined => "Undetermined"@,
        }
    }

    /// Appends the outcome's text to `out`.
    pub fn push_text(&self, out: &mut String)
        ensures
            final(out)@ == old(out)@ + self.text(),
    {
        proof {
            reveal_strlit("Exited(");
            reveal_strlit("Signaled(");
            reveal_strlit("Other(");
            reveal_strlit(")");
            reveal_strlit("Undetermined");
        }
        match self {
            TerminationOutcome::Exited(c) => {
                out.append("Exited(");
                push_decimal(out, *c as u64);
                out.append(")");
            },
            TerminationOutcome::Signaled(s) => {
                out.append("Signaled(");
                push_decimal(out, *s as u64);
                out.append(")");
            },
            TerminationOutcome::Other(v) => {
                out.append("Other(");
                push_signed_decimal(out, *v as i64);
                out.append(")");
            },
            TerminationOutcome::Undetermined => {
                out.append("Undetermined");
            },
        }
        assert(out@ =~= old(out)@ + self.text());
    }

    /// The outcome's text.
    pub fn describe(&self) -> (r: String)
        ensures
            r@ == self.text(),
    {
        let mut s = String::new();
        self.push_text(&mut s);
        assert(s@ =~= self.text());
        s
    }

    /// Whether the process exited with code 0.
    pub fn success(&self) -> (r: bool)
        ensures
            r == (*self == TerminationOutcome::Exited(0)),
    {
        match self {
            TerminationOutcome::Exited(c) => *c == 0,
            _ => false,
        }
    }
}

} // verus!

//! Errors of a batch run, each with the chain of causes beneath it.
use vstd::prelude::*;

verus! {

/// Where in a run an error arose.
#[derive(Clone, Copy, Debug, PartialEq, Eq, Structural)]
pub enum ErrorKind {
    /// Reading the configuration or initialising the logger; fatal to the run.
    Setup,
    /// A command could not be spawned, or its process could not be awaited.
    LaunchFailure,
    /// The handle of a submitted command could not be observed.
    WaitFailure,
}

/// An error: what failed, and the causes that led to it, nearest first.
#[derive(Clone, Debug, PartialEq, Eq)]
pub struct BatchError {
    pub kind: ErrorKind,
    pub message: String,
    pub causes: Vec<String>,
}

/// The texts of a sequence of strings.
pub open spec fn texts(v: Seq<String>) -> Seq<Seq<char>> {
    v.map_values(|s: String| s@)
}

proof fn lemma_texts_push(v: Seq<String>, x: String)
    ensures
        texts(v.push(x)) == texts(v).push(x@),
{
    assert(texts(v.push(x)) =~= texts(v).push(x@));
}

/// `first`, then each of `rest`, each after the separator `": "`.
pub open spec fn joined(first: Seq<char>, rest: Seq<Seq<char>>) -> Seq<char>
    decreases rest.len(),
{
    if rest.len() == 0 {
        first
    } else {
        joined(first, rest.drop_last()) + ": "@ + rest.last()
    }
}

/// The lines that report an error: its message, then one line per cause.
pub open spec fn report_text(message: Seq<char>, causes: Seq<Seq<char>>) -> Seq<Seq<char>> {
    seq!["Error: "@ + message] + causes.map_values(|c: Seq<char>| "- Caused by: "@ + c)
}

impl BatchError {
    /// The chain of the error: its message, then its causes.
    pub open spec fn chain(self) -> Seq<Seq<char>> {
        seq![self.message@] + texts(self.causes@)
    }

    /// The error on one line: its message and its causes, separated by `": "`.
    pub open spec fn summary_text(self) -> Seq<char> {
        joined(self.message@, texts(self.causes@))
    }

    /// An error with no cause beneath it.
    pub fn new(kind: ErrorKind, message: String) -> (r: BatchError)
        ensures
            r.kind == kind,
            r.message@ == message@,
            r.causes@.len() == 0,
    {
        BatchError { kind, message, causes: Vec::new() }
    }

    /// An error caused by a failure that is known only by its text.
    pub fn caused_by(kind: ErrorKind, message: String, cause: String) -> (r: BatchError)
        ensures
            r.kind == kind,
            r.message@ == message@,
            texts(r.causes@) == seq![cause@],
    {
        let mut causes: Vec<String> = Vec::new();
        causes.push(cause);
        let r = BatchError { kind, message, causes };
        assert(texts(r.causes@) =~= seq![cause@]);
        r
    }

    /// A new error of `kind` whose cause is this one: its chain is `message`
    /// followed by this error's chain.
    pub fn wrap(self, kind: ErrorKind, message: String) -> (r: BatchError)
        ensures
            r.kind == kind,
            r.chain() == seq![message@] + self.chain(),
    {
        let mut causes: Vec<String> = Vec::new();
        let old_causes = self.causes;
        causes.push(self.message);
        let mut i: usize = 0;
        while i < old_causes.len()
            invariant
                i <= old_causes@.len(),
                texts(causes@) == seq![self.message@] + texts(old_causes@.subrange(0, i as int)),
            decreases old_causes@.len() - i,
        {
            let ghost prev = causes@;
            let c = old_causes[i].clone();
            causes.push(c);
            proof {
                lemma_texts_push(prev, c);
            }
            assert(texts(old_causes@.subrange(0, i + 1)) =~= texts(
                old_causes@.subrange(0, i as int),
            ).push(old_causes@[i as int]@));
            assert(texts(causes@) =~= seq![self.message@] + texts(
                old_causes@.subrange(0, i + 1),
            ));
            i = i + 1;
        }
        assert(old_causes@.subrange(0, old_causes@.len() as int) =~= old_causes@);
        let r = BatchError { kind, message, causes };
        assert(r.chain() =~= seq![message@] + self.chain());
        r
    }

    /// The error on one line: its message and its causes, separated by `": "`.
    pub fn summary(&self) -> (r: String)
        ensures
            r@ == self.summary_text(),
    {
        proof {
            reveal_strlit(": ");
        }
        let mut s = self.message.clone();
        let mut i: usize = 0;
        while i < self.causes.len()
            invariant
                i <= self.causes@.len(),
                s@ == joined(self.message@, texts(self.causes@).subrange(0, i as int)),
            decreases self.causes@.len() - i,
        {
            s.append(": ");
            s.append(self.causes[i].as_str());
            let ghost prefix = texts(self.causes@).subrange(0, i + 1);
            assert(prefix.drop_last() =~= texts(self.causes@).subrange(0, i as int));
            i = i + 1;
        }
        assert(texts(self.causes@).subrange(0, self.causes@.len() as int) =~= texts(self.causes@));
        s
    }

    /// The lines that report the error: `Error: ` and its message, then
    /// `- Caused by: ` and each cause, nearest first.
    pub fn report_lines(&self) -> (r: Vec<String>)
        ensures
            texts(r@) == report_text(self.message@, texts(self.causes@)),
    {
        proof {
            reveal_strlit("Error: ");
            reveal_strlit("- Caused by: ");
        }
        let mut lines: Vec<String> = Vec::new();
        let mut first = String::from_str("Error: ");
        first.append(self.message.as_str());
        lines.push(first);
        let mut i: usize = 0;
        while i < self.causes.len()
            invariant
                i <= self.causes@.len(),
                texts(lines@) == report_text(self.message@, texts(self.causes@).subrange(0, i as int)),
            decreases self.causes@.len() - i,
        {
            let mut line = String::from_str("- Caused by: ");
            line.append(self.causes[i].as_str());
            let ghost prev = lines@;
            lines.push(line);
            proof {
                lemma_texts_push(prev, line);
            }
            assert(texts(lines@) =~= report_text(
                self.message@,
                texts(self.causes@).subrange(0, i + 1),
            ));
            i = i + 1;
        }
        assert(texts(self.causes@).subrange(0, self.causes@.len() as int) =~= texts(self.causes@));
        lines
    }

    /// The logger could not be initialised from the file at `path`.
    pub fn logger_init_failed(path: &str, cause: String) -> (r: BatchError)
        ensures
            r.kind == ErrorKind::Setup,
            r.message@ == "Unable to initialize the logger with the given config file at '"@ + path@
                + "'"@,
            texts(r.causes@) == seq![cause@],
    {
        proof {
            reveal_strlit("Unable to initialize the logger with the given config file at '");
            reveal_strlit("'");
        }
        let mut m = String::from_str("Unable to initialize the logger with the given config file at '");
        m.append(path);
        m.append("'");
        BatchError::caused_by(ErrorKind::Setup, m, cause)
    }

    /// The configuration file at `path` could not be opened.
    pub fn config_open_failed(path: &str, cause: String) -> (r: BatchError)
        ensures
            r.kind == ErrorKind::Setup,
            r.message@ == "Unable to open config file path at '"@ + path@ + "'"@,
            texts(r.causes@) == seq![cause@],
    {
        proof {
            reveal_strlit("Unable to open config file path at '");
            reveal_strlit("'");
        }
        let mut m = String::from_str("Unable to open config file path at '");
        m.append(path);
        m.append("'");
        BatchError::caused_by(ErrorKind::Setup, m, cause)
    }

    /// The configuration file could not be read.
    pub fn config_read_failed(cause: String) -> (r: BatchError)
        ensures
            r.kind == ErrorKind::Setup,
            r.message@ == "Unable to read config file into string"@,
            texts(r.causes@) == seq![cause@],
    {
        proof {
            reveal_strlit("Unable to read config file into string");
        }
        BatchError::caused_by(
            ErrorKind::Setup,
            String::from_str("Unable to read config file into string"),
            cause,
        )
    }

    /// The configuration `text` is not in the required format.
    pub fn config_parse_failed(text: &str, cause: String) -> (r: BatchError)
        ensures
            r.kind == ErrorKind::Setup,
            r.message@ == "Unable to parse config as required toml format: "@ + text@,
            texts(r.causes@) == seq![cause@],
    {
        proof {
            reveal_strlit("Unable to parse config as required toml format: ");
        }
        let mut m = String::from_str("Unable to parse config as required toml format: ");
        m.append(text);
        BatchError::caused_by(ErrorKind::Setup, m, cause)
    }

    /// A command's shell could not be spawned or awaited.
    pub fn launch_failed(cause: String) -> (r: BatchError)
        ensures
            r.kind == ErrorKind::LaunchFailure,
            r.message@ == "Unable to join shell process"@,
            texts(r.causes@) == seq![cause@],
    {
        proof {
            reveal_strlit("Unable to join shell process");
        }
        BatchError::caused_by(
            ErrorKind::LaunchFailure,
            String::from_str("Unable to join shell process"),
            cause,
        )
    }

    /// A command's handle could not be observed.
    pub fn wait_failed(cause: String) -> (r: BatchError)
        ensures
            r.kind == ErrorKind::WaitFailure,
            r.message@ == "Unable to observe the command's handle"@,
            texts(r.causes@) == seq![cause@],
    {
        proof {
            reveal_strlit("Unable to observe the command's handle");
        }
        BatchError::caused_by(
            ErrorKind::WaitFailure,
            String::from_str("Unable to observe the command's handle"),
            cause,
        )
    }
}

} // verus!

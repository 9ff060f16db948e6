//! The batch coordinator: the order in which a batch starts its pool, submits
//! its commands and waits on their handles.
//!
//! The coordinator does no work itself. The caller asks it for the next
//! action, performs that action (starting a pool, submitting a command,
//! waiting on a handle), and reports back what happened.
use vstd::prelude::*;
use crate::outcome::TerminationOutcome;
use crate::error::BatchError;

verus! {

/// What the caller must do next.
#[derive(Clone, Copy, Debug, PartialEq, Eq, Structural)]
pub enum Action {
    /// Start a worker pool with this many slots.
    StartPool(usize),
    /// Submit the command at this position to the pool.
    Submit(usize),
    /// Wait on the handle of the command at this position.
    Wait(usize),
    /// Every command has been submitted and waited on.
    Finish,
}

/// What waiting on one handle gave.
#[derive(Clone, Debug, PartialEq, Eq)]
pub enum HandleResult {
    /// The command's process terminated.
    Completed(TerminationOutcome),
    /// The command could not be launched or awaited.
    LaunchFailed(BatchError),
    /// The handle itself could not be observed.
    WaitFailed(BatchError),
}

impl HandleResult {
    /// The result of a handle that was observed: the command's outcome, or
    /// its launch failure.
    pub fn from_run(run: Result<TerminationOutcome, BatchError>) -> (r: HandleResult)
        ensures
            run is Ok ==> r == HandleResult::Completed(run->Ok_0),
            run is Err ==> r == HandleResult::LaunchFailed(run->Err_0),
    {
        match run {
            Ok(o) => HandleResult::Completed(o),
            Err(e) => HandleResult::LaunchFailed(e),
        }
    }
}

/// The state of a batch: its number of commands, whether the pool was
/// started, how many commands were submitted, and the results of the handles
/// waited on so far, in submission order.
pub struct BatchState {
    pub n: nat,
    pub started: bool,
    pub submitted: nat,
    pub results: Seq<HandleResult>,
}

/// The state of a batch of `n` commands before anything was done.
pub open spec fn initial(n: nat) -> BatchState {
    BatchState { n, started: false, submitted: 0, results: Seq::empty() }
}

/// The states that a batch passes through: commands are submitted only once
/// the pool is started, and handles are waited on only once every command
/// was submitted.
pub open spec fn well_formed(s: BatchState) -> bool {
    &&& s.n <= usize::MAX
    &&& s.submitted <= s.n
    &&& s.results.len() <= s.submitted
    &&& s.results.len() > 0 ==> s.submitted == s.n
    &&& !s.started ==> s.submitted == 0
}

/// The action that a batch in state `s` asks for.
pub open spec fn next_of(s: BatchState) -> Action {
    if s.n == 0 {
        Action::Finish
    } else if !s.started {
        Action::StartPool(s.n as usize)
    } else if s.submitted < s.n {
        Action::Submit(s.submitted as usize)
    } else if s.results.len() < s.n {
        Action::Wait(s.results.len() as usize)
    } else {
        Action::Finish
    }
}

/// The state after the pool was started.
pub open spec fn after_start(s: BatchState) -> BatchState {
    BatchState { started: true, ..s }
}

/// The state after one more command was submitted.
pub open spec fn after_submit(s: BatchState) -> BatchState {
    BatchState { submitted: s.submitted + 1, ..s }
}

/// The state after one more handle was waited on, with result `r`.
pub open spec fn after_wait(s: BatchState, r: HandleResult) -> BatchState {
    BatchState { results: s.results.push(r), ..s }
}

/// How much work is left in state `s`.
pub open spec fn work_left(s: BatchState) -> nat {
    (if s.started { 0int } else { 1int } + (s.n - s.submitted) + (s.n - s.results.len())) as nat
}

/// Runs a batch from state `s`, taking the result of each wait in turn from
/// `rs`: the actions asked for, and the state reached. The run stops at
/// `Finish`, or at a wait when `rs` is used up.
pub open spec fn run_from(s: BatchState, rs: Seq<HandleResult>) -> (Seq<Action>, BatchState)
    decreases work_left(s),
{
    if !well_formed(s) {
        (Seq::empty(), s)
    } else {
        match next_of(s) {
            Action::StartPool(k) => {
                let (a, t) = run_from(after_start(s), rs);
                (seq![Action::StartPool(k)] + a, t)
            },
            Action::Submit(i) => {
                let (a, t) = run_from(after_submit(s), rs);
                (seq![Action::Submit(i)] + a, t)
            },
            Action::Wait(i) => {
                if rs.len() == 0 {
                    (Seq::empty(), s)
                } else {
                    let (a, t) = run_from(after_wait(s, rs[0]), rs.drop_first());
                    (seq![Action::Wait(i)] + a, t)
                }
            },
            Action::Finish => (seq![Action::Finish], s),
        }
    }
}

/// `Submit(from)`, `Submit(from + 1)`, ..., up to `n`, not included.
pub open spec fn submits(from: nat, n: nat) -> Seq<Action> {
    Seq::new((n - from) as nat, |i: int| Action::Submit((from + i) as usize))
}

/// `Wait(from)`, `Wait(from + 1)`, ..., up to `n`, not included.
pub open spec fn waits(from: nat, n: nat) -> Seq<Action> {
    Seq::new((n - from) as nat, |i: int| Action::Wait((from + i) as usize))
}

/// The actions of a whole batch of `n` commands: no pool and nothing to do
/// when there are none; else a pool of `n` slots, each command submitted once
/// in order, each handle waited on once in the same order, then the end.
pub open spec fn batch_actions(n: nat) -> Seq<Action> {
    if n == 0 {
        seq![Action::Finish]
    } else {
        seq![Action::StartPool(n as usize)] + submits(0, n) + waits(0, n) + seq![Action::Finish]
    }
}

proof fn lemma_wait_phase(s: BatchState, rs: Seq<HandleResult>)
    requires
        well_formed(s),
        s.started || s.n == 0,
        s.submitted == s.n,
        rs.len() == s.n - s.results.len(),
    ensures
        run_from(s, rs).0 == waits(s.results.len(), s.n) + seq![Action::Finish],
        run_from(s, rs).1.results == s.results + rs,
        run_from(s, rs).1.n == s.n,
        run_from(s, rs).1.submitted == s.n,
        run_from(s, rs).1.started == s.started,
    decreases rs.len(),
{
    if rs.len() == 0 {
        assert(waits(s.results.len(), s.n) =~= Seq::<Action>::empty());
        assert(s.results + rs =~= s.results);
        assert(seq![Action::Finish] =~= Seq::<Action>::empty() + seq![Action::Finish]);
    } else {
        let t = after_wait(s, rs[0]);
        lemma_wait_phase(t, rs.drop_first());
        assert(waits(s.results.len(), s.n) =~= seq![Action::Wait(s.results.len() as usize)]
            + waits(t.results.len(), s.n));
        assert(t.results + rs.drop_first() =~= s.results + rs);
        assert(run_from(s, rs).0 =~= seq![Action::Wait(s.results.len() as usize)] + run_from(
            t,
            rs.drop_first(),
        ).0);
    }
}

proof fn lemma_submit_phase(s: BatchState, rs: Seq<HandleResult>)
    requires
        well_formed(s),
        s.started,
        s.results.len() == 0,
        rs.len() == s.n,
    ensures
        run_from(s, rs).0 == submits(s.submitted, s.n) + waits(0, s.n) + seq![Action::Finish],
        run_from(s, rs).1.results == rs,
        run_from(s, rs).1.n == s.n,
        run_from(s, rs).1.submitted == s.n,
        run_from(s, rs).1.started,
    decreases s.n - s.submitted,
{
    if s.submitted == s.n {
        lemma_wait_phase(s, rs);
        assert(submits(s.submitted, s.n) =~= Seq::<Action>::empty());
        assert(s.results + rs =~= rs);
        assert(run_from(s, rs).0 =~= submits(s.submitted, s.n) + waits(0, s.n) + seq![
            Action::Finish,
        ]);
    } else {
        let t = after_submit(s);
        lemma_submit_phase(t, rs);
        assert(submits(s.submitted, s.n) =~= seq![Action::Submit(s.submitted as usize)] + submits(
            t.submitted,
            s.n,
        ));
        assert(run_from(s, rs).0 =~= submits(s.submitted, s.n) + waits(0, s.n) + seq![
            Action::Finish,
        ]);
    }
}

/// Every command of a batch gets exactly one handle and every handle is
/// waited on exactly once, in submission order, whatever each wait gives:
/// run from the start with one result per command, a batch asks for exactly
/// `batch_actions(n)` and ends holding those results, in order.
pub proof fn lemma_each_command_once(n: nat, rs: Seq<HandleResult>)
    requires
        n <= usize::MAX,
        rs.len() == n,
    ensures
        run_from(initial(n), rs).0 == batch_actions(n),
        run_from(initial(n), rs).1.results == rs,
        next_of(run_from(initial(n), rs).1) == Action::Finish,
{
    let s = initial(n);
    if n == 0 {
        assert(rs =~= Seq::<HandleResult>::empty());
        assert(s.results + rs =~= rs);
    } else {
        let t = after_start(s);
        lemma_submit_phase(t, rs);
        assert(run_from(s, rs).0 =~= batch_actions(n));
    }
}

/// Each step that a batch asks for keeps it well formed: the pool is started
/// at most once and before any submission, no command is submitted twice,
/// and no handle is waited on before every command was submitted.
pub proof fn lemma_steps_keep_well_formed(s: BatchState, r: HandleResult)
    requires
        well_formed(s),
    ensures
        next_of(s) is StartPool ==> well_formed(after_start(s)),
        next_of(s) is Submit ==> well_formed(after_submit(s)),
        next_of(s) is Wait ==> well_formed(after_wait(s, r)),
        well_formed(initial(s.n)),
{
}

/// Two runs of the same batch ask for the same actions and each ends with one
/// result per command, whatever their commands gave.
pub proof fn lemma_runs_alike(n: nat, rs1: Seq<HandleResult>, rs2: Seq<HandleResult>)
    requires
        n <= usize::MAX,
        rs1.len() == n,
        rs2.len() == n,
    ensures
        run_from(initial(n), rs1).0 == run_from(initial(n), rs2).0,
        run_from(initial(n), rs1).1.results.len() == n,
        run_from(initial(n), rs2).1.results.len() == n,
{
    lemma_each_command_once(n, rs1);
    lemma_each_command_once(n, rs2);
}

/// The diagnostic written to the error output when a handle could not be
/// observed.
pub open spec fn wait_diagnostic_text(e: BatchError) -> Seq<char> {
    "Error waiting for a command's handle: "@ + e.summary_text()
}

/// A batch of commands being run: its commands, and its state.
pub struct Coordinator {
    commands: Vec<String>,
    started: bool,
    submitted: usize,
    results: Vec<HandleResult>,
}

impl View for Coordinator {
    type V = BatchState;

    closed spec fn view(&self) -> BatchState {
        BatchState {
            n: self.commands@.len(),
            started: self.started,
            submitted: self.submitted as nat,
            results: self.results@,
        }
    }
}

impl Coordinator {
    /// The commands of the batch, in submission order.
    pub closed spec fn commands(&self) -> Seq<String> {
        self.commands@
    }

    /// The batch of `commands`, before anything was done.
    pub fn new(commands: Vec<String>) -> (r: Coordinator)
        ensures
            r@ == initial(commands@.len()),
            r.commands() == commands@,
    {
        let r = Coordinator { commands, started: false, submitted: 0, results: Vec::new() };
        assert(r@.results =~= Seq::<HandleResult>::empty());
        r
    }

    /// The action that the batch asks for now.
    pub fn next_action(&self) -> (r: Action)
        ensures
            r == next_of(self@),
    {
        if self.commands.len() == 0 {
            Action::Finish
        } else if !self.started {
            Action::StartPool(self.commands.len())
        } else if self.submitted < self.commands.len() {
            Action::Submit(self.submitted)
        } else if self.results.len() < self.commands.len() {
            Action::Wait(self.results.len())
        } else {
            Action::Finish
        }
    }

    /// Whether every command was submitted and waited on.
    pub fn is_done(&self) -> (r: bool)
        ensures
            r == (next_of(self@) == Action::Finish),
    {
        match self.next_action() {
            Action::Finish => true,
            _ => false,
        }
    }

    /// The command at position `i`.
    pub fn command(&self, i: usize) -> (r: &String)
        requires
            i < self@.n,
        ensures
            *r == self.commands()[i as int],
    {
        &self.commands[i]
    }

    /// The results of the handles waited on so far, in submission order.
    pub fn results(&self) -> (r: &Vec<HandleResult>)
        ensures
            r@ == self@.results,
    {
        &self.results
    }

    /// Records that the pool was started, as the batch asked.
    pub fn pool_started(&mut self)
        requires
            next_of(old(self)@) is StartPool,
        ensures
            final(self)@ == after_start(old(self)@),
            final(self).commands() == old(self).commands(),
    {
        self.started = true;
    }

    /// Records that the next command was submitted, as the batch asked.
    pub fn submitted(&mut self)
        requires
            next_of(old(self)@) is Submit,
        ensures
            final(self)@ == after_submit(old(self)@),
            final(self).commands() == old(self).commands(),
    {
        let n = self.commands.len();
        assert(self.submitted < n);
        self.submitted = self.submitted + 1;
    }

    /// Records what waiting on the next handle gave, as the batch asked.
    /// Returns the diagnostic to write to the error output when the handle
    /// itself could not be observed, and nothing otherwise.
    pub fn resolved(&mut self, r: HandleResult) -> (d: Option<String>)
        requires
            next_of(old(self)@) is Wait,
        ensures
            final(self)@ == after_wait(old(self)@, r),
            final(self).commands() == old(self).commands(),
            match r {
                HandleResult::WaitFailed(e) => d is Some && d->Some_0@ == wait_diagnostic_text(e),
                _ => d is None,
            },
    {
        proof {
            reveal_strlit("Error waiting for a command's handle: ");
        }
        let d = match &r {
            HandleResult::WaitFailed(e) => {
                let mut line = String::from_str("Error waiting for a command's handle: ");
                let s = e.summary();
                line.append(s.as_str());
                Some(line)
            },
            _ => None,
        };
        self.results.push(r);
        d
    }
}

} // verus!

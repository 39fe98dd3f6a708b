//! The render runner: the capability to run the tool on a document, and the
//! decisions of a runner that tries each candidate executable in turn.
//!
//! Starting a process is the host's work. The host reports what came of each
//! start as an [`Attempt`]; a [`CandidateRun`] says which candidate to start
//! next and how the run ends.

use crate::naming::optional_text;
use crate::text::{
    concat2, concat5, join, join_with, lemma_join_holds_each_part, occurs_in, texts, trim, trimmed,
};
use vstd::prelude::*;

verus! {

/// The capability to render a document with the tool.
pub trait QuartoRunner {
    /// `outcome` is something that this runner may report when it is asked
    /// to render the document at `md_path` in `workdir` with the search path
    /// `dev_path`. A runner that says nothing of itself may report anything.
    /// The relation is there so that whoever calls a runner can say what it
    /// was asked and that the report is the runner's own.
    open spec fn may_return(
        &self,
        md_path: Seq<char>,
        workdir: Seq<char>,
        dev_path: Option<Seq<char>>,
        outcome: Result<(), String>,
    ) -> bool {
        true
    }

    /// Renders the document at `md_path` with `workdir` as the working
    /// directory and, where `dev_path` is given, with it as the search path
    /// of the tool. An error carries the diagnostic of the failed run.
    fn render(&self, md_path: &str, workdir: &str, dev_path: Option<&str>) -> (r: Result<
        (),
        String,
    >)
        ensures
            self.may_return(md_path@, workdir@, optional_text(dev_path), r),
    ;
}

// ---------------------------------------------------------------------------
// Attempts
// ---------------------------------------------------------------------------

/// What came of starting one candidate executable.
#[derive(Debug, PartialEq, Eq)]
pub enum Attempt {
    /// The process ran and exited; `status` is the host's rendering of its
    /// exit status.
    Exited { success: bool, status: String, stdout: String, stderr: String },
    /// The process was not found or could not be started.
    NotStarted { reason: String },
}

/// The mathematical content of an [`Attempt`].
pub enum AttemptView {
    Exited { success: bool, status: Seq<char>, stdout: Seq<char>, stderr: Seq<char> },
    NotStarted { reason: Seq<char> },
}

impl View for Attempt {
    type V = AttemptView;

    open spec fn view(&self) -> AttemptView {
        match self {
            Attempt::Exited { success, status, stdout, stderr } => AttemptView::Exited {
                success: *success,
                status: status@,
                stdout: stdout@,
                stderr: stderr@,
            },
            Attempt::NotStarted { reason } => AttemptView::NotStarted { reason: reason@ },
        }
    }
}

/// What the candidates are started for.
#[derive(Clone, Copy, Debug, PartialEq, Eq)]
pub enum Purpose {
    /// Rendering a document.
    Render,
    /// Asking the tool for its version.
    VersionProbe,
}

/// The process exited successfully.
pub open spec fn succeeded(attempt: AttemptView) -> bool {
    attempt matches AttemptView::Exited { success, .. } && success
}

/// What a successful attempt reports: nothing for a rendering, the trimmed
/// standard output for a version probe.
pub open spec fn success_report(purpose: Purpose, attempt: AttemptView) -> Seq<char> {
    match (purpose, attempt) {
        (Purpose::VersionProbe, AttemptView::Exited { stdout, .. }) => trim(stdout),
        _ => Seq::<char>::empty(),
    }
}

/// The diagnostic recorded for a failed attempt: the candidate, then the
/// exit status with the trimmed standard error, or the reason why the
/// process did not start.
pub open spec fn failure_note(purpose: Purpose, candidate: Seq<char>, attempt: AttemptView) -> Seq<
    char,
> {
    match purpose {
        Purpose::Render => match attempt {
            AttemptView::Exited { status, stderr, .. } => candidate + ": exit="@ + status
                + ", stderr="@ + trim(stderr),
            AttemptView::NotStarted { reason } => candidate + ": 실행 오류 "@ + reason,
        },
        Purpose::VersionProbe => match attempt {
            AttemptView::Exited { status, stderr, .. } => candidate + " -> exit="@ + status
                + ", stderr="@ + trim(stderr),
            AttemptView::NotStarted { reason } => candidate + " -> err="@ + reason,
        },
    }
}

/// What stands between the diagnostics of an exhausted run.
pub open spec fn note_separator() -> Seq<char> {
    " | "@
}

/// The diagnostic of a run in which every candidate failed: all the recorded
/// diagnostics, in order, with a separator between them.
pub open spec fn exhausted_message(purpose: Purpose, notes: Seq<Seq<char>>) -> Seq<char> {
    match purpose {
        Purpose::Render => if notes.len() == 0 {
            "Quarto 실행 실패"@
        } else {
            join(notes, note_separator())
        },
        Purpose::VersionProbe => "Quarto를 찾을 수 없습니다. 시도한 경로/명령: "@ + join(
            notes,
            note_separator(),
        ),
    }
}

/// The diagnostic recorded for a failed attempt.
pub fn note_failure(purpose: Purpose, candidate: &str, attempt: &Attempt) -> (r: String)
    ensures
        r@ == failure_note(purpose, candidate@, attempt@),
{
    match purpose {
        Purpose::Render => match attempt {
            Attempt::Exited { status, stderr, .. } => {
                let err = trimmed(stderr.as_str());
                concat5(candidate, ": exit=", status.as_str(), ", stderr=", err.as_str())
            },
            Attempt::NotStarted { reason } => {
                let head = concat2(candidate, ": 실행 오류 ");
                concat2(head.as_str(), reason.as_str())
            },
        },
        Purpose::VersionProbe => match attempt {
            Attempt::Exited { status, stderr, .. } => {
                let err = trimmed(stderr.as_str());
                concat5(candidate, " -> exit=", status.as_str(), ", stderr=", err.as_str())
            },
            Attempt::NotStarted { reason } => {
                let head = concat2(candidate, " -> err=");
                concat2(head.as_str(), reason.as_str())
            },
        },
    }
}

/// The diagnostic of a run in which every candidate failed.
pub fn exhausted(purpose: Purpose, notes: &Vec<String>) -> (r: String)
    ensures
        r@ == exhausted_message(purpose, texts(notes@)),
{
    match purpose {
        Purpose::Render => {
            if notes.len() == 0 {
                "Quarto 실행 실패".to_owned()
            } else {
                join_with(notes, " | ")
            }
        },
        Purpose::VersionProbe => {
            let all = join_with(notes, " | ");
            concat2("Quarto를 찾을 수 없습니다. 시도한 경로/명령: ", all.as_str())
        },
    }
}

/// The arguments with which a candidate is started to render `md_path`.
pub fn render_arguments(md_path: &str) -> (r: Vec<String>)
    ensures
        texts(r@) == seq!["render"@, md_path@],
{
    let mut v: Vec<String> = Vec::new();
    v.push("render".to_owned());
    v.push(md_path.to_owned());
    assert(texts(v@) =~= seq!["render"@, md_path@]);
    v
}

/// The arguments with which a candidate is started to tell its version.
pub fn version_arguments() -> (r: Vec<String>)
    ensures
        texts(r@) == seq!["--version"@],
{
    let mut v: Vec<String> = Vec::new();
    v.push("--version".to_owned());
    assert(texts(v@) =~= seq!["--version"@]);
    v
}

// ---------------------------------------------------------------------------
// A run over the candidates
// ---------------------------------------------------------------------------

/// A run that waits for the outcome of one candidate.
pub struct CandidateRun {
    purpose: Purpose,
    candidates: Vec<String>,
    index: usize,
    notes: Vec<String>,
}

/// The mathematical content of a [`CandidateRun`]: the candidates, the index
/// of the one that is being tried and the diagnostics of those before it.
pub struct RunModel {
    pub purpose: Purpose,
    pub candidates: Seq<Seq<char>>,
    pub index: int,
    pub notes: Seq<Seq<char>>,
}

impl RunModel {
    /// The candidate that is being tried exists.
    pub open spec fn valid(self) -> bool {
        0 <= self.index < self.candidates.len()
    }
}

/// What a run asks of the host next, or how it ended.
pub enum RunStep {
    /// Start the current candidate of the run and report the attempt.
    Launch(CandidateRun),
    /// The run is over: the report of the successful attempt, or the
    /// diagnostic of the exhausted run.
    Finished(Result<String, String>),
}

/// The mathematical content of a [`RunStep`].
pub enum RunStepView {
    Launch(RunModel),
    Finished(Result<Seq<char>, Seq<char>>),
}

impl View for CandidateRun {
    type V = RunModel;

    closed spec fn view(&self) -> RunModel {
        RunModel {
            purpose: self.purpose,
            candidates: texts(self.candidates@),
            index: self.index as int,
            notes: texts(self.notes@),
        }
    }
}

impl View for RunStep {
    type V = RunStepView;

    open spec fn view(&self) -> RunStepView {
        match self {
            RunStep::Launch(run) => RunStepView::Launch(run@),
            RunStep::Finished(Ok(report)) => RunStepView::Finished(Ok(report@)),
            RunStep::Finished(Err(message)) => RunStepView::Finished(Err(message@)),
        }
    }
}

/// How a run starts: with the first candidate, or, without candidates, as
/// exhausted at once.
pub open spec fn first_step(purpose: Purpose, candidates: Seq<Seq<char>>) -> RunStepView {
    if candidates.len() == 0 {
        RunStepView::Finished(Err(exhausted_message(purpose, Seq::empty())))
    } else {
        RunStepView::Launch(RunModel { purpose, candidates, index: 0, notes: Seq::empty() })
    }
}

/// How a run goes on after an attempt. Success ends it. A failure is
/// recorded; then the next candidate is tried, or, after the last one, the
/// run ends as exhausted.
pub open spec fn next_step(run: RunModel, attempt: AttemptView) -> RunStepView {
    if succeeded(attempt) {
        RunStepView::Finished(Ok(success_report(run.purpose, attempt)))
    } else {
        let notes = run.notes.push(
            failure_note(run.purpose, run.candidates[run.index], attempt),
        );
        if run.index + 1 < run.candidates.len() {
            RunStepView::Launch(
                RunModel {
                    purpose: run.purpose,
                    candidates: run.candidates,
                    index: run.index + 1,
                    notes,
                },
            )
        } else {
            RunStepView::Finished(Err(exhausted_message(run.purpose, notes)))
        }
    }
}

impl CandidateRun {
    #[verifier::type_invariant]
    spec fn well_formed(&self) -> bool {
        self.index < self.candidates@.len()
    }

    /// Starts a run over `candidates`.
    pub fn begin(purpose: Purpose, candidates: Vec<String>) -> (r: RunStep)
        ensures
            r@ == first_step(purpose, texts(candidates@)),
            r@ matches RunStepView::Launch(run) ==> run.valid(),
    {
        if candidates.len() == 0 {
            let none: Vec<String> = Vec::new();
            assert(texts(none@) =~= Seq::<Seq<char>>::empty());
            RunStep::Finished(Err(exhausted(purpose, &none)))
        } else {
            let notes: Vec<String> = Vec::new();
            assert(texts(notes@) =~= Seq::<Seq<char>>::empty());
            RunStep::Launch(CandidateRun { purpose, candidates, index: 0, notes })
        }
    }

    /// What the run is for.
    pub fn purpose(&self) -> (r: Purpose)
        ensures
            r == self@.purpose,
    {
        self.purpose
    }

    /// The candidate to start.
    pub fn candidate(&self) -> (r: &str)
        ensures
            self@.valid(),
            r@ == self@.candidates[self@.index],
    {
        proof {
            use_type_invariant(self);
        }
        self.candidates[self.index].as_str()
    }

    /// Takes the outcome of starting the current candidate.
    pub fn attempted(self, attempt: Attempt) -> (r: RunStep)
        ensures
            r@ == next_step(self@, attempt@),
            r@ matches RunStepView::Launch(run) ==> run.valid(),
    {
        proof {
            use_type_invariant(&self);
        }
        let ghost before = self@;
        let CandidateRun { purpose, candidates, index, notes } = self;
        let count = candidates.len();
        let mut notes = notes;
        let done = match &attempt {
            Attempt::Exited { success, .. } => *success,
            Attempt::NotStarted { .. } => false,
        };
        if done {
            let report = match (purpose, &attempt) {
                (Purpose::VersionProbe, Attempt::Exited { stdout, .. }) => trimmed(stdout.as_str()),
                _ => String::new(),
            };
            return RunStep::Finished(Ok(report));
        }
        let note = note_failure(purpose, candidates[index].as_str(), &attempt);
        let ghost earlier = texts(notes@);
        notes.push(note);
        assert(texts(notes@) =~= earlier.push(note@));
        if index + 1 < count {
            RunStep::Launch(CandidateRun { purpose, candidates, index: index + 1, notes })
        } else {
            RunStep::Finished(Err(exhausted(purpose, &notes)))
        }
    }
}

// ---------------------------------------------------------------------------
// Laws
// ---------------------------------------------------------------------------

/// Where a run stands after the host has reported `attempts` in order. A run
/// that is over takes no further attempts.
pub open spec fn after_attempts(step: RunStepView, attempts: Seq<AttemptView>) -> RunStepView
    decreases attempts.len(),
{
    match step {
        RunStepView::Finished(_) => step,
        RunStepView::Launch(run) => if attempts.len() == 0 {
            step
        } else {
            after_attempts(next_step(run, attempts[0]), attempts.drop_first())
        },
    }
}

/// The diagnostics of `attempts`, made on the candidates from `from` on.
pub open spec fn notes_of(
    purpose: Purpose,
    candidates: Seq<Seq<char>>,
    from: int,
    attempts: Seq<AttemptView>,
) -> Seq<Seq<char>> {
    Seq::new(attempts.len(), |i: int| failure_note(purpose, candidates[from + i], attempts[i]))
}

/// A run in which every remaining candidate fails ends as exhausted, and its
/// diagnostic is made of the diagnostic of every attempt, in order.
pub proof fn law_exhausted_run_reports_all(run: RunModel, attempts: Seq<AttemptView>)
    requires
        run.valid(),
        attempts.len() == run.candidates.len() - run.index,
        forall|i: int| 0 <= i < attempts.len() ==> !succeeded(#[trigger] attempts[i]),
    ensures
        after_attempts(RunStepView::Launch(run), attempts) == RunStepView::Finished(
            Err(
                exhausted_message(
                    run.purpose,
                    run.notes + notes_of(run.purpose, run.candidates, run.index, attempts),
                ),
            ),
        ),
    decreases attempts.len(),
{
    reveal_with_fuel(after_attempts, 2);
    let all = run.notes + notes_of(run.purpose, run.candidates, run.index, attempts);
    let note = failure_note(run.purpose, run.candidates[run.index], attempts[0]);
    let rest = attempts.drop_first();
    if run.index + 1 < run.candidates.len() {
        let next = RunModel {
            purpose: run.purpose,
            candidates: run.candidates,
            index: run.index + 1,
            notes: run.notes.push(note),
        };
        assert(next_step(run, attempts[0]) == RunStepView::Launch(next));
        assert forall|i: int| 0 <= i < rest.len() implies !succeeded(#[trigger] rest[i]) by {
            assert(rest[i] == attempts[i + 1]);
        }
        law_exhausted_run_reports_all(next, rest);
        assert(next.notes + notes_of(run.purpose, run.candidates, next.index, rest) =~= all);
    } else {
        assert(rest.len() == 0);
        assert(run.notes.push(note) =~= all);
    }
}

/// The diagnostic of an exhausted run holds the diagnostic of each attempt.
pub proof fn law_exhausted_message_holds_each_note(purpose: Purpose, notes: Seq<Seq<char>>, i: int)
    requires
        0 <= i < notes.len(),
    ensures
        occurs_in(notes[i], exhausted_message(purpose, notes)),
{
    lemma_join_holds_each_part(notes, note_separator(), i);
    match purpose {
        Purpose::Render => {},
        Purpose::VersionProbe => {
            let head = "Quarto를 찾을 수 없습니다. 시도한 경로/명령: "@;
            let all = join(notes, note_separator());
            crate::text::lemma_occurs_in_context(notes[i], all, head, Seq::<char>::empty());
            assert(head + all + Seq::<char>::empty() =~= head + all);
        },
    }
}

/// The first successful attempt ends the run with its report; no later
/// candidate is tried.
pub proof fn law_first_success_ends_run(run: RunModel, attempts: Seq<AttemptView>, k: int)
    requires
        run.valid(),
        0 <= k < attempts.len(),
        k < run.candidates.len() - run.index,
        forall|i: int| 0 <= i < k ==> !succeeded(#[trigger] attempts[i]),
        succeeded(attempts[k]),
    ensures
        after_attempts(RunStepView::Launch(run), attempts) == RunStepView::Finished(
            Ok(success_report(run.purpose, attempts[k])),
        ),
    decreases k,
{
    reveal_with_fuel(after_attempts, 2);
    let rest = attempts.drop_first();
    if k > 0 {
        let note = failure_note(run.purpose, run.candidates[run.index], attempts[0]);
        let next = RunModel {
            purpose: run.purpose,
            candidates: run.candidates,
            index: run.index + 1,
            notes: run.notes.push(note),
        };
        assert(!succeeded(attempts[0]));
        assert(next_step(run, attempts[0]) == RunStepView::Launch(next));
        assert forall|i: int| 0 <= i < k - 1 implies !succeeded(#[trigger] rest[i]) by {
            assert(rest[i] == attempts[i + 1]);
        }
        assert(rest[k - 1] == attempts[k]);
        law_first_success_ends_run(next, rest, k - 1);
    }
}

} // verus!

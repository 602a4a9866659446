//! The strategy engine: for an invocation and a strategy, the sequence of
//! decisions from elevation to the end of the run.  The engine decides and
//! the caller acts: it asks the question, shows the line or spawns the
//! process, and reports back what happened.

use vstd::prelude::*;
use crate::error::{Error, ErrorView};
use crate::exec::{conclude, concluded, ExecutionOutcome, OutcomeView, ProcessReport};
use crate::invocation::{Invocation, InvocationView};
use crate::strategy::{ExecMode, PromptStrategy, Strategy, StrategyView};
use crate::text::{joined, words};

verus! {

/// What is to be done with a command once consent is settled.
#[derive(Debug)]
pub enum Action {
    /// Show this line to the user and spawn nothing.
    Display { line: String },
    /// Spawn a process with this argument vector; it gets the terminal when
    /// `interactive` holds, and its output is captured otherwise.
    Spawn { argv: Vec<String>, interactive: bool },
}

/// What a [`Action`] stands for.
pub enum ActionView {
    Display { line: Seq<char> },
    Spawn { argv: Seq<Seq<char>>, interactive: bool },
}

impl View for Action {
    type V = ActionView;

    open spec fn view(&self) -> ActionView {
        match self {
            Action::Display { line } => ActionView::Display { line: line@ },
            Action::Spawn { argv, interactive } => ActionView::Spawn {
                argv: words(argv@),
                interactive: *interactive,
            },
        }
    }
}

/// How a mediated invocation ended when nothing went wrong.
#[derive(Debug)]
pub enum Completion {
    /// The command was shown, not run.
    Displayed { line: String },
    /// The user declined; nothing was spawned.
    Declined,
    /// The process ran and exited with status zero.
    Finished(ExecutionOutcome),
}

/// What a [`Completion`] stands for.
pub enum CompletionView {
    Displayed { line: Seq<char> },
    Declined,
    Finished(OutcomeView),
}

impl View for Completion {
    type V = CompletionView;

    open spec fn view(&self) -> CompletionView {
        match self {
            Completion::Displayed { line } => CompletionView::Displayed { line: line@ },
            Completion::Declined => CompletionView::Declined,
            Completion::Finished(outcome) => CompletionView::Finished(outcome@),
        }
    }
}

/// Where a mediated invocation stands, and with it what the caller is to
/// do next.
#[derive(Debug)]
pub enum Stage {
    /// Ask the user `prompt` and hand back the line that was typed.
    Confirm { prompt: String, action: Action },
    /// Carry out the action and hand back what came of it.
    Act(Action),
    /// Nothing is left to do.
    Done(Result<Completion, Error>),
}

/// What a [`Stage`] stands for.
pub enum StageView {
    Confirm { prompt: Seq<char>, action: ActionView },
    Act(ActionView),
    Done(Result<CompletionView, ErrorView>),
}

impl View for Stage {
    type V = StageView;

    open spec fn view(&self) -> StageView {
        match self {
            Stage::Confirm { prompt, action } => StageView::Confirm {
                prompt: prompt@,
                action: action@,
            },
            Stage::Act(action) => StageView::Act(action@),
            Stage::Done(Ok(completion)) => StageView::Done(Ok(completion@)),
            Stage::Done(Err(e)) => StageView::Done(Err(e@)),
        }
    }
}

/// What the caller reports back to the engine.
#[derive(Debug)]
pub enum Event {
    /// The line that the user typed in answer to the question.
    Answer(String),
    /// The line was shown.
    Displayed,
    /// The process was spawned, and this came of it.
    Report(ProcessReport),
}

/// The line without its line ending: at most one line feed is taken off
/// the end, and then at most one carriage return.
pub open spec fn without_eol(line: Seq<char>) -> Seq<char> {
    let cut = if line.len() > 0 && line.last() == '\n' {
        line.drop_last()
    } else {
        line
    };
    if cut.len() > 0 && cut.last() == '\r' {
        cut.drop_last()
    } else {
        cut
    }
}

/// Whether `c` is the letter `lower` in either case.
pub open spec fn is_letter(c: char, lower: char, upper: char) -> bool {
    c == lower || c == upper
}

/// Whether the typed line means yes: an empty line, `y` or `yes`, in any
/// mix of upper and lower case.  Every other line means no.
pub open spec fn affirmative(line: Seq<char>) -> bool {
    let answer = without_eol(line);
    ||| answer.len() == 0
    ||| answer.len() == 1 && is_letter(answer[0], 'y', 'Y')
    ||| answer.len() == 3 && is_letter(answer[0], 'y', 'Y') && is_letter(answer[1], 'e', 'E')
        && is_letter(answer[2], 's', 'S')
}

/// Whether the typed line means yes.
pub fn is_affirmative(line: &str) -> (out: bool)
    ensures
        out == affirmative(line@),
{
    let total = line.unicode_len();
    let mut len = total;
    if len > 0 && line.get_char(len - 1) == '\n' {
        len -= 1;
    }
    if len > 0 && line.get_char(len - 1) == '\r' {
        len -= 1;
    }
    proof {
        assert(without_eol(line@) =~= line@.take(len as int));
    }
    if len == 0 {
        true
    } else if len == 1 {
        let c0 = line.get_char(0);
        c0 == 'y' || c0 == 'Y'
    } else if len == 3 {
        let c0 = line.get_char(0);
        let c1 = line.get_char(1);
        let c2 = line.get_char(2);
        (c0 == 'y' || c0 == 'Y') && (c1 == 'e' || c1 == 'E') && (c2 == 's' || c2 == 'S')
    } else {
        false
    }
}

impl StrategyView {
    /// The action that the resolved command `cmd` calls for: a dry run
    /// shows its line, every other mode spawns its argument vector.
    pub open spec fn action(self, cmd: InvocationView) -> ActionView {
        if self.mode == ExecMode::DryRun {
            ActionView::Display { line: cmd.rendered() }
        } else {
            ActionView::Spawn { argv: cmd.argv(), interactive: self.interactive() }
        }
    }

    /// The stage in which the mediation of `inv` starts: the command is
    /// resolved, and the question, if there is one, comes before the action.
    pub open spec fn started(self, inv: InvocationView, elevation_cmd: Seq<char>) -> StageView {
        let action = self.action(self.resolved(inv, elevation_cmd));
        match self.question() {
            Some(prompt) => StageView::Confirm { prompt, action },
            None => StageView::Act(action),
        }
    }
}

/// What an [`Event`] means to a stage, as far as the stage reads it.
pub enum EventView {
    Answer(Seq<char>),
    Displayed,
    Report(ProcessReport),
}

impl View for Event {
    type V = EventView;

    open spec fn view(&self) -> EventView {
        match self {
            Event::Answer(line) => EventView::Answer(line@),
            Event::Displayed => EventView::Displayed,
            Event::Report(report) => EventView::Report(*report),
        }
    }
}

/// The end of a run, from the result of the executor.
pub open spec fn settled(report: ProcessReport) -> Result<CompletionView, ErrorView> {
    match concluded(report) {
        Ok(outcome) => Ok(CompletionView::Finished(outcome)),
        Err(e) => Err(ErrorView::of_exec(e)),
    }
}

/// The stage that follows `stage` on `event`.  A yes lets the action go
/// ahead and a no ends the run as declined; a shown line and a report each
/// end the run.  An event that the stage did not ask for leaves the stage
/// as it is.
pub open spec fn advanced(stage: StageView, event: EventView) -> StageView {
    match (stage, event) {
        (StageView::Confirm { prompt, action }, EventView::Answer(line)) => if affirmative(line) {
            StageView::Act(action)
        } else {
            StageView::Done(Ok(CompletionView::Declined))
        },
        (StageView::Act(ActionView::Display { line }), EventView::Displayed) => StageView::Done(
            Ok(CompletionView::Displayed { line }),
        ),
        (StageView::Act(ActionView::Spawn { argv, interactive }), EventView::Report(report)) => {
            StageView::Done(settled(report))
        },
        _ => stage,
    }
}

/// Starts the mediation of `inv` under `strategy`.  `inv` is only read.
pub fn start(inv: &Invocation, strategy: &Strategy, elevation_cmd: &str) -> (out: Stage)
    ensures
        out@ == strategy@.started(inv@, elevation_cmd@),
{
    let cmd = strategy.resolve(inv, elevation_cmd);
    let action = match strategy.mode {
        ExecMode::DryRun => Action::Display { line: cmd.render() },
        _ => {
            let interactive = match (&strategy.prompt, strategy.mode) {
                (PromptStrategy::NativeConfirm, ExecMode::CheckDryRun) => false,
                (PromptStrategy::NativeConfirm, _) => true,
                _ => false,
            };
            Action::Spawn { argv: cmd.argv(), interactive }
        },
    };
    match (&strategy.prompt, strategy.mode) {
        (PromptStrategy::CustomConfirm(text), ExecMode::CheckDryRun) => Stage::Act(action),
        (PromptStrategy::CustomConfirm(text), _) => Stage::Confirm {
            prompt: text.clone(),
            action,
        },
        _ => Stage::Act(action),
    }
}

/// Moves `stage` on by `event`.
pub fn advance(stage: Stage, event: Event) -> (out: Stage)
    ensures
        out@ == advanced(stage@, event@),
{
    match stage {
        Stage::Confirm { prompt, action } => match event {
            Event::Answer(line) => if is_affirmative(line.as_str()) {
                Stage::Act(action)
            } else {
                Stage::Done(Ok(Completion::Declined))
            },
            _ => Stage::Confirm { prompt, action },
        },
        Stage::Act(Action::Display { line }) => match event {
            Event::Displayed => Stage::Done(Ok(Completion::Displayed { line })),
            _ => Stage::Act(Action::Display { line }),
        },
        Stage::Act(Action::Spawn { argv, interactive }) => match event {
            Event::Report(report) => match conclude(report) {
                Ok(outcome) => Stage::Done(Ok(Completion::Finished(outcome))),
                Err(e) => Stage::Done(Err(Error::from_exec(e))),
            },
            _ => Stage::Act(Action::Spawn { argv, interactive }),
        },
        Stage::Done(result) => Stage::Done(result),
    }
}

/// The stage that is reached from `stage` by `events`, one after another.
pub open spec fn after(stage: StageView, events: Seq<EventView>) -> StageView
    decreases events.len(),
{
    if events.len() == 0 {
        stage
    } else {
        advanced(after(stage, events.drop_last()), events.last())
    }
}

/// Whether a process is, or may yet be, spawned from `stage`.
pub open spec fn may_spawn(stage: StageView) -> bool {
    match stage {
        StageView::Confirm { prompt, action } => action is Spawn,
        StageView::Act(action) => action is Spawn,
        StageView::Done(_) => false,
    }
}

/// Whether the run that ended in `stage` had a process spawned.
pub open spec fn has_spawned(stage: StageView) -> bool {
    match stage {
        StageView::Done(Ok(CompletionView::Finished(_))) => true,
        StageView::Done(Err(_)) => true,
        _ => false,
    }
}

/// A dry run never spawns a process: whatever the caller reports, no stage
/// of it asks for a spawn, and it does not end as a run of a process does.
pub proof fn lemma_dry_run_never_spawns(
    strategy: StrategyView,
    inv: InvocationView,
    elevation_cmd: Seq<char>,
    events: Seq<EventView>,
)
    requires
        strategy.mode == ExecMode::DryRun,
    ensures
        !may_spawn(after(strategy.started(inv, elevation_cmd), events)),
        !has_spawned(after(strategy.started(inv, elevation_cmd), events)),
    decreases events.len(),
{
    if events.len() > 0 {
        lemma_dry_run_never_spawns(strategy, inv, elevation_cmd, events.drop_last());
    }
}

/// What a dry run shows is exactly what a run would have spawned: for the
/// same invocation, strategy and elevation program, the line of the dry run
/// is the argument vector of the run, joined by single spaces, and both ask
/// the same question before.
pub proof fn lemma_dry_run_shows_what_runs(
    strategy: StrategyView,
    inv: InvocationView,
    elevation_cmd: Seq<char>,
)
    ensures
        ({
            let dry = StrategyView { mode: ExecMode::DryRun, ..strategy };
            let run = StrategyView { mode: ExecMode::Run, ..strategy };
            &&& dry.question() == run.question()
            &&& dry.resolved(inv, elevation_cmd) == run.resolved(inv, elevation_cmd)
            &&& run.action(run.resolved(inv, elevation_cmd)) matches ActionView::Spawn {
                argv,
                interactive,
            }
            &&& dry.action(dry.resolved(inv, elevation_cmd)) == (ActionView::Display {
                line: joined(argv, seq![' ']),
            })
        }),
{
}

/// A reported run is over: once the outcome of the spawned process is
/// handed in, the stage is final, whatever is reported afterwards.  Nothing
/// is spawned a second time, whether the process succeeded, failed or was
/// interrupted.
pub proof fn lemma_never_retried(
    argv: Seq<Seq<char>>,
    interactive: bool,
    report: ProcessReport,
    events: Seq<EventView>,
)
    ensures
        after(
            advanced(
                StageView::Act(ActionView::Spawn { argv, interactive }),
                EventView::Report(report),
            ),
            events,
        ) == StageView::Done(settled(report)),
    decreases events.len(),
{
    if events.len() > 0 {
        lemma_never_retried(argv, interactive, report, events.drop_last());
    }
}

/// An interrupted process and a process that exited with a status other
/// than zero end in different errors; only the second carries an exit
/// code, and it carries the code of the process unchanged.
pub proof fn lemma_interrupted_is_distinct(report: ProcessReport)
    ensures
        report is Signaled <==> settled(report) == Err::<CompletionView, ErrorView>(
            ErrorView::CmdInterruptedError,
        ),
        report matches ProcessReport::Exited { code, stdout, stderr } ==> (code != 0 ==> (settled(
            report,
        ) matches Err(ErrorView::CmdStatusCodeError { code: reported, output }) && reported
            == code)),
        report matches ProcessReport::Exited { code, stdout, stderr } ==> (code == 0
            <==> settled(report) is Ok),
{
}

/// A declined run spawns nothing: after a line that does not mean yes, the
/// stage is final and says so.
pub proof fn lemma_declined_spawns_nothing(
    prompt: Seq<char>,
    action: ActionView,
    line: Seq<char>,
    events: Seq<EventView>,
)
    requires
        !affirmative(line),
    ensures
        after(
            advanced(StageView::Confirm { prompt, action }, EventView::Answer(line)),
            events,
        ) == StageView::Done(Ok(CompletionView::Declined)),
    decreases events.len(),
{
    if events.len() > 0 {
        lemma_declined_spawns_nothing(prompt, action, line, events.drop_last());
    }
}

} // verus!

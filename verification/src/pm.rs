//! The operation facade: the one path by which every operation of every
//! package manager reaches the strategy engine.

use vstd::prelude::*;
use crate::config::{Config, ConfigView};
use crate::engine::{
    after, lemma_dry_run_never_spawns, may_spawn, settled, start, Completion, CompletionView,
    EventView, Stage, StageView,
};
use crate::exec::ProcessReport;
use crate::error::{Error, ErrorView};
use crate::invocation::{Invocation, InvocationView};
use crate::search::{search_output, search_result, all_compile};
use crate::strategy::{ExecMode, Strategy, StrategyView};
use crate::text::{clone_words, same_text, word, words};
use vstd::utf8::valid_utf8;

pub mod conda;
pub mod unknown;

verus! {

/// The operations that a package manager can be asked for.
#[derive(Clone, Copy, Debug, PartialEq, Eq, Structural)]
pub enum Op {
    Q,
    Qc,
    Qe,
    Qi,
    Qk,
    Ql,
    Qm,
    Qo,
    Qp,
    Qs,
    Qu,
    R,
    Rn,
    Rns,
    Rs,
    Rss,
    S,
    Sc,
    Scc,
    Sccc,
    Sg,
    Si,
    Sii,
    Sl,
    Ss,
    Su,
    Suy,
    Sw,
    Sy,
    U,
}

/// Every operation, in the order of the dictionary of their names.
pub open spec fn all_ops() -> Seq<Op> {
    seq![
        Op::Q,
        Op::Qc,
        Op::Qe,
        Op::Qi,
        Op::Qk,
        Op::Ql,
        Op::Qm,
        Op::Qo,
        Op::Qp,
        Op::Qs,
        Op::Qu,
        Op::R,
        Op::Rn,
        Op::Rns,
        Op::Rs,
        Op::Rss,
        Op::S,
        Op::Sc,
        Op::Scc,
        Op::Sccc,
        Op::Sg,
        Op::Si,
        Op::Sii,
        Op::Sl,
        Op::Ss,
        Op::Su,
        Op::Suy,
        Op::Sw,
        Op::Sy,
        Op::U,
    ]
}

/// Every operation is one of `all_ops`.
pub proof fn lemma_all_ops_complete(op: Op)
    ensures
        exists|k: int| 0 <= k < all_ops().len() && #[trigger] all_ops()[k] == op,
{
    let k: int = match op {
        Op::Q => 0,
        Op::Qc => 1,
        Op::Qe => 2,
        Op::Qi => 3,
        Op::Qk => 4,
        Op::Ql => 5,
        Op::Qm => 6,
        Op::Qo => 7,
        Op::Qp => 8,
        Op::Qs => 9,
        Op::Qu => 10,
        Op::R => 11,
        Op::Rn => 12,
        Op::Rns => 13,
        Op::Rs => 14,
        Op::Rss => 15,
        Op::S => 16,
        Op::Sc => 17,
        Op::Scc => 18,
        Op::Sccc => 19,
        Op::Sg => 20,
        Op::Si => 21,
        Op::Sii => 22,
        Op::Sl => 23,
        Op::Ss => 24,
        Op::Su => 25,
        Op::Suy => 26,
        Op::Sw => 27,
        Op::Sy => 28,
        Op::U => 29,
    };
    assert(all_ops()[k] == op);
}

impl Op {
    /// Every operation, in the order of the dictionary of their names.
    pub fn all() -> (out: Vec<Op>)
        ensures
            out@ == all_ops(),
    {
        let out = vec![
            Op::Q,
            Op::Qc,
            Op::Qe,
            Op::Qi,
            Op::Qk,
            Op::Ql,
            Op::Qm,
            Op::Qo,
            Op::Qp,
            Op::Qs,
            Op::Qu,
            Op::R,
            Op::Rn,
            Op::Rns,
            Op::Rs,
            Op::Rss,
            Op::S,
            Op::Sc,
            Op::Scc,
            Op::Sccc,
            Op::Sg,
            Op::Si,
            Op::Sii,
            Op::Sl,
            Op::Ss,
            Op::Su,
            Op::Suy,
            Op::Sw,
            Op::Sy,
            Op::U,
        ];
        proof {
            assert(out@ =~= all_ops());
        }
        out
    }

    /// The name by which the operation is asked for.
    pub open spec fn label(self) -> Seq<char> {
        match self {
            Op::Q => "q"@,
            Op::Qc => "qc"@,
            Op::Qe => "qe"@,
            Op::Qi => "qi"@,
            Op::Qk => "qk"@,
            Op::Ql => "ql"@,
            Op::Qm => "qm"@,
            Op::Qo => "qo"@,
            Op::Qp => "qp"@,
            Op::Qs => "qs"@,
            Op::Qu => "qu"@,
            Op::R => "r"@,
            Op::Rn => "rn"@,
            Op::Rns => "rns"@,
            Op::Rs => "rs"@,
            Op::Rss => "rss"@,
            Op::S => "s"@,
            Op::Sc => "sc"@,
            Op::Scc => "scc"@,
            Op::Sccc => "sccc"@,
            Op::Sg => "sg"@,
            Op::Si => "si"@,
            Op::Sii => "sii"@,
            Op::Sl => "sl"@,
            Op::Ss => "ss"@,
            Op::Su => "su"@,
            Op::Suy => "suy"@,
            Op::Sw => "sw"@,
            Op::Sy => "sy"@,
            Op::U => "u"@,
        }
    }

    /// The operation that is asked for by `name`, if there is one.
    pub fn parse(name: &str) -> (out: Option<Op>)
        ensures
            match out {
                Some(op) => op.label() == name@,
                None => forall|op: Op| op.label() != name@,
            },
    {
        let ops = Op::all();
        let mut i: usize = 0;
        while i < ops.len()
            invariant
                i <= ops.len(),
                ops@ == all_ops(),
                forall|k: int| 0 <= k < i ==> (#[trigger] all_ops()[k]).label() != name@,
            decreases ops.len() - i,
        {
            if same_text(ops[i].name(), name) {
                return Some(ops[i]);
            }
            i += 1;
        }
        proof {
            assert forall|op: Op| op.label() != name@ by {
                lemma_all_ops_complete(op);
            }
        }
        None
    }

    /// The name by which the operation is asked for.
    pub fn name(self) -> (out: &'static str)
        ensures
            out@ == self.label(),
    {
        match self {
            Op::Q => "q",
            Op::Qc => "qc",
            Op::Qe => "qe",
            Op::Qi => "qi",
            Op::Qk => "qk",
            Op::Ql => "ql",
            Op::Qm => "qm",
            Op::Qo => "qo",
            Op::Qp => "qp",
            Op::Qs => "qs",
            Op::Qu => "qu",
            Op::R => "r",
            Op::Rn => "rn",
            Op::Rns => "rns",
            Op::Rs => "rs",
            Op::Rss => "rss",
            Op::S => "s",
            Op::Sc => "sc",
            Op::Scc => "scc",
            Op::Sccc => "sccc",
            Op::Sg => "sg",
            Op::Si => "si",
            Op::Sii => "sii",
            Op::Sl => "sl",
            Op::Ss => "ss",
            Op::Su => "su",
            Op::Suy => "suy",
            Op::Sw => "sw",
            Op::Sy => "sy",
            Op::U => "u",
        }
    }
}

/// What every package manager offers: a name, its configuration, and the
/// operations that it has.  An operation that it lacks is reported as
/// unimplemented, with the names of the operation and of the package
/// manager.
pub trait Pm {
    /// The name of the package manager.
    spec fn spec_name(&self) -> Seq<char>;

    /// The configuration of the package manager.
    spec fn spec_cfg(&self) -> ConfigView;

    /// Whether the package manager has the operation `op`.
    spec fn implements(&self, op: Op) -> bool;

    /// The jobs that the operation `op` consists of, for the keywords `kws`
    /// and the flags `flags`, in the order in which they are to run.
    spec fn plan(&self, op: Op, kws: Seq<Seq<char>>, flags: Seq<Seq<char>>) -> Seq<JobView>;

    /// Gets the name of the package manager.
    fn name(&self) -> (out: &str)
        ensures
            out@ == self.spec_name(),
    ;

    /// Gets the configuration of the package manager.
    fn cfg(&self) -> (out: &Config)
        ensures
            out@ == self.spec_cfg(),
    ;

    /// The jobs of the operation `op` on the keywords `kws` with the flags
    /// `flags`, or the report that there is no such operation.
    fn perform(&self, op: Op, kws: &Vec<String>, flags: &Vec<String>) -> (out: Result<
        Vec<Job>,
        Error,
    >)
        ensures
            out is Ok <==> self.implements(op),
            out matches Ok(list) ==> jobs(list@) == self.plan(op, words(kws@), words(flags@)),
            out matches Err(e) ==> e@ == (ErrorView::OperationUnimplementedError {
                op: op.label(),
                pm: self.spec_name(),
            }),
    ;
}

/// A search to make in the output of a job once it has run.
#[derive(Debug)]
pub struct Search {
    pub keywords: Vec<String>,
    pub window: usize,
}

/// What a [`Search`] stands for.
pub struct SearchView {
    pub keywords: Seq<Seq<char>>,
    pub window: int,
}

impl View for Search {
    type V = SearchView;

    open spec fn view(&self) -> SearchView {
        SearchView { keywords: words(self.keywords@), window: self.window as int }
    }
}

/// One mediated invocation on its way through the engine, and what is to
/// be made of its output.
#[derive(Debug)]
pub struct Job {
    /// Where the invocation stands.
    pub stage: Stage,
    /// The search to make in what the process wrote, if one is asked for.
    pub search: Option<Search>,
}

/// What a [`Job`] stands for.
pub struct JobView {
    pub stage: StageView,
    pub search: Option<SearchView>,
}

impl View for Job {
    type V = JobView;

    open spec fn view(&self) -> JobView {
        JobView {
            stage: self.stage@,
            search: match self.search {
                Some(search) => Some(search@),
                None => None,
            },
        }
    }
}

/// What a list of jobs stands for.
pub open spec fn jobs(list: Seq<Job>) -> Seq<JobView> {
    Seq::new(list.len(), |i: int| list[i]@)
}

impl JobView {
    /// The job of running `inv` as the configuration alone dictates.
    pub open spec fn run(cfg: ConfigView, inv: InvocationView) -> JobView {
        JobView {
            stage: StrategyView::of_config(cfg).started(inv, cfg.elevation_cmd),
            search: None,
        }
    }

    /// The job of running `inv` under `strategy`, whose mode yields to a
    /// dry run that the configuration asks for and else to the override.
    pub open spec fn run_with(
        cfg: ConfigView,
        inv: InvocationView,
        mode_override: Option<ExecMode>,
        strategy: StrategyView,
    ) -> JobView {
        JobView {
            stage: strategy.in_effect(cfg, mode_override).started(inv, cfg.elevation_cmd),
            search: None,
        }
    }

    /// The job of running `inv` with its output captured, and of searching
    /// that output line by line for `keywords`.
    pub open spec fn search_regex(
        cfg: ConfigView,
        inv: InvocationView,
        keywords: Seq<Seq<char>>,
    ) -> JobView {
        JobView::search_records(cfg, inv, keywords, 1)
    }

    /// The job of running `inv` with its output captured, and of searching
    /// that output for `keywords` in records of `window` lines each.
    pub open spec fn search_records(
        cfg: ConfigView,
        inv: InvocationView,
        keywords: Seq<Seq<char>>,
        window: int,
    ) -> JobView {
        JobView {
            stage: StrategyView::plain().in_effect(cfg, None).started(inv, cfg.elevation_cmd),
            search: Some(SearchView { keywords, window }),
        }
    }
}

/// Starts `inv` with the strategy that the configuration alone dictates.
pub fn run(cfg: &Config, inv: &Invocation) -> (out: Job)
    ensures
        out@ == JobView::run(cfg@, inv@),
{
    let strategy = Strategy::from_config(cfg);
    Job { stage: start(inv, &strategy, cfg.elevation_cmd.as_str()), search: None }
}

/// Starts `inv` under an explicit strategy.  The prompt strategy and the
/// elevation hold whatever the configuration says.  A dry run that the
/// configuration asks for holds but for the override to a probe; without
/// one the mode is the override where there is one, else the strategy's own.
pub fn run_with(
    cfg: &Config,
    inv: &Invocation,
    mode_override: Option<ExecMode>,
    strategy: &Strategy,
) -> (out: Job)
    ensures
        out@ == JobView::run_with(cfg@, inv@, mode_override, strategy@),
{
    let effective = strategy.in_effect(cfg, mode_override);
    Job { stage: start(inv, &effective, cfg.elevation_cmd.as_str()), search: None }
}

/// Starts `inv` with its output captured, to be searched line by line for
/// `keywords` when the process has ended: a line is shown only if every
/// keyword matches it.
pub fn search_regex(cfg: &Config, inv: &Invocation, keywords: &Vec<String>) -> (out: Job)
    ensures
        out@ == JobView::search_regex(cfg@, inv@, words(keywords@)),
{
    search_records(cfg, inv, keywords, 1)
}

/// Starts `inv` with its output captured, to be searched for `keywords`
/// when the process has ended.  The output is read as records of `window`
/// lines each, and a record is shown only if every keyword matches one of
/// its lines.
pub fn search_records(
    cfg: &Config,
    inv: &Invocation,
    keywords: &Vec<String>,
    window: usize,
) -> (out: Job)
    ensures
        out@ == JobView::search_records(cfg@, inv@, words(keywords@), window as int),
{
    let effective = Strategy::default().in_effect(cfg, None);
    Job {
        stage: start(inv, &effective, cfg.elevation_cmd.as_str()),
        search: Some(Search { keywords: clone_words(keywords), window }),
    }
}

/// The lines that a job shows at its end: for a search whose process
/// ran, the kept lines of the captured output; nothing in every other case.
pub fn findings(search: &Option<Search>, completion: &Completion) -> (out: Result<
    Vec<String>,
    Error,
>)
    ensures
        match (search, completion) {
            (Some(s), Completion::Finished(outcome)) => {
                &&& out is Ok <==> valid_utf8(outcome@.stdout) && all_compile(s@.keywords)
                &&& out matches Ok(found) ==> words(found@) == search_result(
                    outcome@.stdout,
                    s@.keywords,
                    s@.window,
                )
                &&& out matches Err(e) ==> if valid_utf8(outcome@.stdout) {
                    e@ is OtherError
                } else {
                    e@ is FromUtf8Error
                }
            },
            _ => out matches Ok(found) && found@.len() == 0,
        },
{
    match (search, completion) {
        (Some(s), Completion::Finished(outcome)) => search_output(
            outcome.stdout(),
            &s.keywords,
            s.window,
        ),
        _ => Ok(Vec::new()),
    }
}

/// The error of an operation that the package manager `pm` does not have.
pub fn unimplemented(op: Op, pm: &str) -> (out: Error)
    ensures
        out@ == (ErrorView::OperationUnimplementedError { op: op.label(), pm: pm@ }),
{
    Error::OperationUnimplementedError { op: word(op.name()), pm: word(pm) }
}

/// The exit code that a run ends the program with: zero when nothing
/// went wrong, the subprocess's own code where an exit code can hold it,
/// and 1 for every other error.
pub open spec fn final_code(result: Result<CompletionView, ErrorView>) -> u8 {
    match result {
        Ok(_) => 0u8,
        Err(e) => e.exit_code(),
    }
}

/// The exit code that a run ends the program with.
pub fn exit_code(result: &Result<Completion, Error>) -> (out: u8)
    ensures
        out == final_code(
            match result {
                Ok(c) => Ok(c@),
                Err(e) => Err(e@),
            },
        ),
{
    match result {
        Ok(_) => 0,
        Err(e) => e.exit_code(),
    }
}

/// The exit code of a process that exited with a code from 0 to 255 is
/// the exit code of the whole run, unchanged.
pub proof fn lemma_exit_code_passes_through(report: ProcessReport)
    requires
        report is Exited,
        0 <= report->code < 256,
    ensures
        final_code(settled(report)) == report->code,
{
}

/// The exit code of a status error is the code that it holds, where that
/// lies from 0 to 255, whatever output it holds; every other error gives 1.
pub proof fn lemma_exit_code_of_error(e: ErrorView)
    ensures
        e matches ErrorView::CmdStatusCodeError { code, output } ==> (0 <= code < 256
            ==> e.exit_code() == code),
        e matches ErrorView::CmdStatusCodeError { code, output } ==> (!(0 <= code < 256)
            ==> e.exit_code() == 1),
        !(e is CmdStatusCodeError) ==> e.exit_code() == 1,
{
}

/// A process that failed never ends the program as a success does:
/// whatever is reported of the spawned process, the exit code of the run is
/// 0 exactly when the process exited with 0.
pub proof fn lemma_failure_is_never_success(report: ProcessReport)
    ensures
        final_code(settled(report)) == 0 <==> settled(report) is Ok,
        settled(report) is Ok <==> (report matches ProcessReport::Exited { code, stdout, stderr }
            && code == 0),
{
}

/// Under a dry run that the configuration asks for, nothing is spawned by
/// a job unless it is made a probe by its override, whatever its strategy
/// and whatever the caller reports.
pub proof fn lemma_global_dry_run_never_spawns(
    cfg: ConfigView,
    inv: InvocationView,
    strategy: StrategyView,
    mode_override: Option<ExecMode>,
    keywords: Seq<Seq<char>>,
    events: Seq<EventView>,
)
    requires
        cfg.dry_run,
        mode_override != Some(ExecMode::CheckDryRun),
    ensures
        !may_spawn(after(JobView::run(cfg, inv).stage, events)),
        !may_spawn(after(JobView::run_with(cfg, inv, mode_override, strategy).stage, events)),
        !may_spawn(after(JobView::search_regex(cfg, inv, keywords).stage, events)),
{
    lemma_dry_run_never_spawns(StrategyView::of_config(cfg), inv, cfg.elevation_cmd, events);
    lemma_dry_run_never_spawns(
        strategy.in_effect(cfg, mode_override),
        inv,
        cfg.elevation_cmd,
        events,
    );
    lemma_dry_run_never_spawns(
        StrategyView::plain().in_effect(cfg, None),
        inv,
        cfg.elevation_cmd,
        events,
    );
}

/// What a result of a job stands for.
pub open spec fn outcome_view(result: Result<Completion, Error>) -> Result<
    CompletionView,
    ErrorView,
> {
    match result {
        Ok(completion) => Ok(completion@),
        Err(e) => Err(e@),
    }
}

/// What a list of results of jobs stands for.
pub open spec fn outcomes(results: Seq<Result<Completion, Error>>) -> Seq<
    Result<CompletionView, ErrorView>,
> {
    Seq::new(results.len(), |i: int| outcome_view(results[i]))
}

/// The position of the first failed job from position `from` on, if one
/// has failed.
pub open spec fn first_failure(
    results: Seq<Result<CompletionView, ErrorView>>,
    from: int,
) -> Option<int>
    decreases results.len() - from,
{
    if from < 0 || from >= results.len() {
        None
    } else if results[from] is Err {
        Some(from)
    } else {
        first_failure(results, from + 1)
    }
}

/// The job that is to run next in an operation of `count` jobs, of which
/// the first `results.len()` have ended with `results`: the jobs run one
/// after another in their order, and the first failure ends the operation.
pub open spec fn next_job(count: int, results: Seq<Result<CompletionView, ErrorView>>) -> Option<
    int,
> {
    if first_failure(results, 0) is None && results.len() < count {
        Some(results.len() as int)
    } else {
        None
    }
}

/// How an operation ends whose jobs ended with `results`: with the error
/// of the first job that failed, and well if none did.
pub open spec fn ended_with(results: Seq<Result<CompletionView, ErrorView>>) -> Result<
    (),
    ErrorView,
> {
    match first_failure(results, 0) {
        Some(i) => Err(results[i]->Err_0),
        None => Ok(()),
    }
}

/// The position of the first failed job, if one has failed.
fn find_failure(results: &Vec<Result<Completion, Error>>) -> (out: Option<usize>)
    ensures
        match first_failure(outcomes(results@), 0) {
            Some(i) => out == Some(i as usize) && 0 <= i < results@.len() && results@[i] is Err,
            None => out is None,
        },
{
    let mut i: usize = 0;
    while i < results.len()
        invariant
            i <= results.len(),
            first_failure(outcomes(results@), i as int) == first_failure(outcomes(results@), 0),
        decreases results.len() - i,
    {
        if results[i].is_err() {
            return Some(i);
        }
        i += 1;
    }
    None
}

/// Says which job of an operation of `count` jobs is to run next, where
/// `results` holds how the jobs run so far have ended, in their order; or
/// that the operation has ended, because a job has failed or none is left.
pub fn next_turn(count: usize, results: &Vec<Result<Completion, Error>>) -> (out: Option<usize>)
    ensures
        match next_job(count as int, outcomes(results@)) {
            Some(i) => out == Some(i as usize),
            None => out is None,
        },
{
    if find_failure(results).is_none() && results.len() < count {
        Some(results.len())
    } else {
        None
    }
}

/// The end of an operation whose jobs ended with `results`: the error of
/// the first job that failed, as it is, and success if none failed.
pub fn verdict(results: Vec<Result<Completion, Error>>) -> (out: Result<(), Error>)
    ensures
        match ended_with(outcomes(results@)) {
            Ok(_) => out is Ok,
            Err(e) => out matches Err(found) && found@ == e,
        },
{
    let mut list = results;
    let ghost all = outcomes(results@);
    match find_failure(&list) {
        Some(i) => {
            let failed = list.remove(i);
            assert(failed == results@[i as int]);
            assert(all[i as int] == outcome_view(failed));
            match failed {
                Err(e) => Err(e),
                Ok(_) => Ok(()),
            }
        },
        None => Ok(()),
    }
}

proof fn lemma_first_failure_stays(
    results: Seq<Result<CompletionView, ErrorView>>,
    more: Seq<Result<CompletionView, ErrorView>>,
    from: int,
)
    requires
        0 <= from,
        first_failure(results, from) is Some,
    ensures
        first_failure(results + more, from) == first_failure(results, from),
        from <= first_failure(results, from)->0 < results.len(),
        results[first_failure(results, from)->0] is Err,
    decreases results.len() - from,
{
    assert((results + more)[from] == results[from]);
    if !(results[from] is Err) {
        lemma_first_failure_stays(results, more, from + 1);
    }
}

/// The first failure ends an operation: once a job has failed, no further
/// job is run, whatever is reported afterwards, and the operation ends with
/// the error of that job.  The failed job is not run again.
pub proof fn lemma_first_failure_ends(
    count: int,
    results: Seq<Result<CompletionView, ErrorView>>,
    more: Seq<Result<CompletionView, ErrorView>>,
)
    requires
        first_failure(results, 0) is Some,
    ensures
        next_job(count, results + more) is None,
        ended_with(results + more) == ended_with(results),
        ended_with(results) is Err,
{
    lemma_first_failure_stays(results, more, 0);
    assert((results + more)[first_failure(results, 0)->0] == results[first_failure(
        results,
        0,
    )->0]);
}

/// The jobs run one after another, each once: the job that runs next is
/// the one after the jobs that have ended, and it runs only if every job
/// before it has ended well.
pub proof fn lemma_jobs_run_in_order(count: int, results: Seq<Result<CompletionView, ErrorView>>)
    requires
        next_job(count, results) is Some,
    ensures
        next_job(count, results)->0 == results.len(),
        results.len() < count,
        forall|k: int| 0 <= k < results.len() ==> (#[trigger] results[k]) is Ok,
{
    lemma_no_failure_all_ok(results, 0);
}

proof fn lemma_no_failure_all_ok(results: Seq<Result<CompletionView, ErrorView>>, from: int)
    requires
        0 <= from,
        first_failure(results, from) is None,
    ensures
        forall|k: int| from <= k < results.len() ==> (#[trigger] results[k]) is Ok,
    decreases results.len() - from,
{
    if from < results.len() {
        lemma_no_failure_all_ok(results, from + 1);
    }
}

} // verus!

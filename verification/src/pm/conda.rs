//! The Conda package manager.

use vstd::prelude::*;
use crate::config::{Config, ConfigView};
use crate::error::Error;
use crate::invocation::{Invocation, InvocationView};
use crate::pm::{jobs, run, run_with, search_regex, unimplemented, Job, JobView, Op, Pm};
use crate::strategy::{
    Elevation, ElevationView, ExecMode, PromptStrategy, PromptView, Strategy, StrategyView,
};
use crate::text::{words, words1, words2};

verus! {

/// The Conda package manager.
#[derive(Debug)]
pub struct Conda {
    cfg: Config,
}

/// The strategy of the operations that change something: `-y` silences
/// Conda's own question.
pub open spec fn prompt_strategy() -> StrategyView {
    StrategyView {
        mode: ExecMode::Run,
        prompt: PromptView::NativeNoConfirm(seq!["-y"@]),
        elevation: ElevationView::NotRequired,
    }
}

fn strat_prompt() -> (out: Strategy)
    ensures
        out@ == prompt_strategy(),
{
    Strategy {
        mode: ExecMode::Run,
        prompt: PromptStrategy::native_no_confirm(&words1("-y")),
        elevation: Elevation::NotRequired,
    }
}

/// The command `conda` with the base arguments `base`, then `kws`, then
/// `flags`.
pub open spec fn conda(
    base: Seq<Seq<char>>,
    kws: Seq<Seq<char>>,
    flags: Seq<Seq<char>>,
) -> InvocationView {
    InvocationView::fresh("conda"@, base).with_keywords(kws).with_flags(flags)
}

/// The search term that finds every package whose name holds `kw`.
pub open spec fn starred(kw: Seq<char>) -> Seq<char> {
    "*"@ + kw + "*"@
}

impl Conda {
    /// The jobs of the operation `op` of Conda under the configuration
    /// `cfg`; none for an operation that Conda lacks.
    pub open spec fn jobs_of(
        cfg: ConfigView,
        op: Op,
        kws: Seq<Seq<char>>,
        flags: Seq<Seq<char>>,
    ) -> Seq<JobView> {
        match op {
            Op::Q => if kws.len() == 0 {
                seq![JobView::run(cfg, conda(seq!["list"@], seq![], flags))]
            } else {
                seq![JobView::search_regex(cfg, conda(seq!["list"@], seq![], flags), kws)]
            },
            Op::Qo => seq![JobView::run(cfg, conda(seq!["package"@, "--which"@], kws, flags))],
            Op::Qs => seq![JobView::search_regex(cfg, conda(seq!["list"@], seq![], flags), kws)],
            Op::R => seq![
                JobView::run_with(cfg, conda(seq!["remove"@], kws, flags), None, prompt_strategy()),
            ],
            Op::S => seq![
                JobView::run_with(
                    cfg,
                    conda(seq!["install"@], kws, flags),
                    None,
                    prompt_strategy(),
                ),
            ],
            Op::Sc => seq![
                JobView::run_with(
                    cfg,
                    conda(seq!["clean"@, "--all"@], seq![], flags),
                    None,
                    prompt_strategy(),
                ),
            ],
            Op::Si => seq![JobView::run(cfg, conda(seq!["search"@, "--info"@], kws, flags))],
            Op::Ss => Seq::new(
                kws.len(),
                |i: int| JobView::run(cfg, conda(seq!["search"@], seq![starred(kws[i])], flags)),
            ),
            Op::Su | Op::Suy => seq![
                JobView::run_with(
                    cfg,
                    conda(seq!["update"@, "--all"@], kws, flags),
                    None,
                    prompt_strategy(),
                ),
            ],
            _ => Seq::empty(),
        }
    }

    /// Conda under the configuration `cfg`.
    #[must_use]
    pub fn new(cfg: Config) -> (out: Conda)
        ensures
            out.spec_cfg() == cfg@,
    {
        Conda { cfg }
    }

    /// Q generates a list of installed packages.
    pub fn q(&self, kws: &Vec<String>, flags: &Vec<String>) -> (out: Vec<Job>)
        ensures
            jobs(out@) == Conda::jobs_of(
                self.spec_cfg(),
                Op::Q,
                words(kws@),
                words(flags@),
            ),
    {
        if kws.len() == 0 {
            let none: Vec<String> = Vec::new();
            proof {
                assert(words(none@) =~= seq![]);
            }
            let inv = Invocation::new("conda", &words1("list")).with_keywords(&none).with_flags(
                flags,
            );
            one(run(&self.cfg, &inv))
        } else {
            self.qs(kws, flags)
        }
    }

    /// Qo queries the package which provides FILE.
    pub fn qo(&self, kws: &Vec<String>, flags: &Vec<String>) -> (out: Vec<Job>)
        ensures
            jobs(out@) == Conda::jobs_of(
                self.spec_cfg(),
                Op::Qo,
                words(kws@),
                words(flags@),
            ),
    {
        let inv = Invocation::new("conda", &words2("package", "--which")).with_keywords(
            kws,
        ).with_flags(flags);
        one(run(&self.cfg, &inv))
    }

    /// Qs searches locally installed package for names or descriptions:
    /// only the packages that match all of the search terms are shown.
    pub fn qs(&self, kws: &Vec<String>, flags: &Vec<String>) -> (out: Vec<Job>)
        ensures
            jobs(out@) == Conda::jobs_of(
                self.spec_cfg(),
                Op::Qs,
                words(kws@),
                words(flags@),
            ),
    {
        let none: Vec<String> = Vec::new();
        proof {
            assert(words(none@) =~= seq![]);
        }
        let inv = Invocation::new("conda", &words1("list")).with_keywords(&none).with_flags(flags);
        one(search_regex(&self.cfg, &inv, kws))
    }

    /// R removes a single package, leaving all of its dependencies
    /// installed.
    pub fn r(&self, kws: &Vec<String>, flags: &Vec<String>) -> (out: Vec<Job>)
        ensures
            jobs(out@) == Conda::jobs_of(
                self.spec_cfg(),
                Op::R,
                words(kws@),
                words(flags@),
            ),
    {
        let inv = Invocation::new("conda", &words1("remove")).with_keywords(kws).with_flags(flags);
        one(run_with(&self.cfg, &inv, None, &strat_prompt()))
    }

    /// S installs one or more packages by name.
    pub fn s(&self, kws: &Vec<String>, flags: &Vec<String>) -> (out: Vec<Job>)
        ensures
            jobs(out@) == Conda::jobs_of(
                self.spec_cfg(),
                Op::S,
                words(kws@),
                words(flags@),
            ),
    {
        let inv = Invocation::new("conda", &words1("install")).with_keywords(kws).with_flags(
            flags,
        );
        one(run_with(&self.cfg, &inv, None, &strat_prompt()))
    }

    /// Sc removes all the cached packages that are not currently
    /// installed, and the unused sync database.
    pub fn sc(&self, _kws: &Vec<String>, flags: &Vec<String>) -> (out: Vec<Job>)
        ensures
            jobs(out@) == Conda::jobs_of(
                self.spec_cfg(),
                Op::Sc,
                words(_kws@),
                words(flags@),
            ),
    {
        let none: Vec<String> = Vec::new();
        proof {
            assert(words(none@) =~= seq![]);
        }
        let inv = Invocation::new("conda", &words2("clean", "--all")).with_keywords(
            &none,
        ).with_flags(flags);
        one(run_with(&self.cfg, &inv, None, &strat_prompt()))
    }

    /// Si displays remote package information: name, version, description,
    /// etc.
    pub fn si(&self, kws: &Vec<String>, flags: &Vec<String>) -> (out: Vec<Job>)
        ensures
            jobs(out@) == Conda::jobs_of(
                self.spec_cfg(),
                Op::Si,
                words(kws@),
                words(flags@),
            ),
    {
        let inv = Invocation::new("conda", &words2("search", "--info")).with_keywords(
            kws,
        ).with_flags(flags);
        one(run(&self.cfg, &inv))
    }

    /// Ss searches for package(s) by searching the expression in name,
    /// description, short description: one run for each keyword, in the
    /// order of the keywords.
    pub fn ss(&self, kws: &Vec<String>, flags: &Vec<String>) -> (out: Vec<Job>)
        ensures
            jobs(out@) == Conda::jobs_of(
                self.spec_cfg(),
                Op::Ss,
                words(kws@),
                words(flags@),
            ),
    {
        let mut out: Vec<Job> = Vec::new();
        let mut i: usize = 0;
        while i < kws.len()
            invariant
                i <= kws.len(),
                jobs(out@) == Seq::new(
                    i as nat,
                    |k: int|
                        JobView::run(
                            self.spec_cfg(),
                            conda(seq!["search"@], seq![starred(kws@[k]@)], words(flags@)),
                        ),
                ),
            decreases kws.len() - i,
        {
            let mut term = String::new();
            term.append("*");
            term.append(kws[i].as_str());
            term.append("*");
            let mut one_kw: Vec<String> = Vec::new();
            one_kw.push(term);
            proof {
                assert(words(one_kw@) =~= seq![starred(kws@[i as int]@)]);
            }
            let inv = Invocation::new("conda", &words1("search")).with_keywords(
                &one_kw,
            ).with_flags(flags);
            let ghost before = jobs(out@);
            let job = run(&self.cfg, &inv);
            out.push(job);
            proof {
                assert(jobs(out@) =~= before.push(job@));
            }
            i += 1;
        }
        out
    }

    /// Su updates outdated packages.
    pub fn su(&self, kws: &Vec<String>, flags: &Vec<String>) -> (out: Vec<Job>)
        ensures
            jobs(out@) == Conda::jobs_of(
                self.spec_cfg(),
                Op::Su,
                words(kws@),
                words(flags@),
            ),
    {
        let inv = Invocation::new("conda", &words2("update", "--all")).with_keywords(
            kws,
        ).with_flags(flags);
        one(run_with(&self.cfg, &inv, None, &strat_prompt()))
    }

    /// Suy refreshes the local package database, then updates outdated
    /// packages.
    pub fn suy(&self, kws: &Vec<String>, flags: &Vec<String>) -> (out: Vec<Job>)
        ensures
            jobs(out@) == Conda::jobs_of(
                self.spec_cfg(),
                Op::Suy,
                words(kws@),
                words(flags@),
            ),
    {
        self.su(kws, flags)
    }
}

impl Pm for Conda {
    open spec fn spec_name(&self) -> Seq<char> {
        "conda"@
    }

    closed spec fn spec_cfg(&self) -> ConfigView {
        self.cfg@
    }

    open spec fn plan(&self, op: Op, kws: Seq<Seq<char>>, flags: Seq<Seq<char>>) -> Seq<JobView> {
        Conda::jobs_of(self.spec_cfg(), op, kws, flags)
    }

    open spec fn implements(&self, op: Op) -> bool {
        op == Op::Q || op == Op::Qo || op == Op::Qs || op == Op::R || op == Op::S || op == Op::Sc
            || op == Op::Si || op == Op::Ss || op == Op::Su || op == Op::Suy
    }

    fn name(&self) -> (out: &str) {
        "conda"
    }

    fn cfg(&self) -> (out: &Config) {
        &self.cfg
    }

    fn perform(&self, op: Op, kws: &Vec<String>, flags: &Vec<String>) -> (out: Result<
        Vec<Job>,
        Error,
    >) {
        match op {
            Op::Q => Ok(self.q(kws, flags)),
            Op::Qo => Ok(self.qo(kws, flags)),
            Op::Qs => Ok(self.qs(kws, flags)),
            Op::R => Ok(self.r(kws, flags)),
            Op::S => Ok(self.s(kws, flags)),
            Op::Sc => Ok(self.sc(kws, flags)),
            Op::Si => Ok(self.si(kws, flags)),
            Op::Ss => Ok(self.ss(kws, flags)),
            Op::Su => Ok(self.su(kws, flags)),
            Op::Suy => Ok(self.suy(kws, flags)),
            _ => Err(unimplemented(op, self.name())),
        }
    }
}

/// The list of the one job `job`.
fn one(job: Job) -> (out: Vec<Job>)
    ensures
        jobs(out@) == seq![job@],
{
    let mut out: Vec<Job> = Vec::new();
    out.push(job);
    proof {
        assert(jobs(out@) =~= seq![job@]);
    }
    out
}

} // verus!

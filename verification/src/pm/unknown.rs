//! An empty mapping for unidentified package managers.

use vstd::prelude::*;
use crate::config::{Config, ConfigView};
use crate::error::Error;
use crate::pm::{unimplemented, Job, JobView, Op, Pm};

verus! {

/// A package manager of which only the name is known: it has no operation.
#[derive(Debug)]
pub struct Unknown {
    name: String,
    cfg: Config,
}

impl Unknown {
    /// The name that an unknown package manager called `name` goes by.
    pub open spec fn title(name: Seq<char>) -> Seq<char> {
        "unknown package manager: "@ + name
    }

    /// Creates a new [`Unknown`] package manager with the given name, under
    /// the configuration in which nothing was asked for.
    #[must_use]
    pub fn new(name: &str) -> (out: Unknown)
        ensures
            out.spec_name() == Unknown::title(name@),
            out.spec_cfg() == ConfigView::initial(),
    {
        Unknown::with_config(name, Config::default())
    }

    /// Creates a new [`Unknown`] package manager with the given name, under
    /// the configuration `cfg`.
    #[must_use]
    pub fn with_config(name: &str, cfg: Config) -> (out: Unknown)
        ensures
            out.spec_name() == Unknown::title(name@),
            out.spec_cfg() == cfg@,
    {
        let mut title = String::new();
        title.append("unknown package manager: ");
        title.append(name);
        Unknown { name: title, cfg }
    }
}

impl Pm for Unknown {
    closed spec fn spec_name(&self) -> Seq<char> {
        self.name@
    }

    closed spec fn spec_cfg(&self) -> ConfigView {
        self.cfg@
    }

    open spec fn implements(&self, op: Op) -> bool {
        false
    }

    open spec fn plan(&self, op: Op, kws: Seq<Seq<char>>, flags: Seq<Seq<char>>) -> Seq<JobView> {
        Seq::empty()
    }

    fn name(&self) -> (out: &str) {
        self.name.as_str()
    }

    fn cfg(&self) -> (out: &Config) {
        &self.cfg
    }

    /// Every operation is reported as unimplemented for this package
    /// manager.
    fn perform(&self, op: Op, kws: &Vec<String>, flags: &Vec<String>) -> (out: Result<
        Vec<Job>,
        Error,
    >) {
        Err(unimplemented(op, self.name()))
    }
}

} // verus!

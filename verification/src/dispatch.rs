//! The dispatcher: which package manager serves the current run.  The host
//! is looked at elsewhere; here the findings are weighed.

use vstd::prelude::*;
use crate::config::{Config, ConfigView};
use crate::error::Error;
use crate::pm::conda::Conda;
use crate::pm::unknown::Unknown;
use crate::pm::{unimplemented, Job, JobView, Op, Pm};
use crate::text::{same_text, word};

verus! {

/// The kind of system that the program runs on.
#[derive(Clone, Copy, Debug, PartialEq, Eq, Structural)]
pub enum HostOs {
    Windows,
    MacOs,
    Linux,
    Other,
}

/// A package manager to look for: its name, and a path at which its
/// executable usually lies (empty where there is no usual path).
pub struct Candidate {
    pub name: Seq<char>,
    pub path: Seq<char>,
}

/// The package managers to look for on a host, in the order of preference.
pub open spec fn candidates_of(os: HostOs) -> Seq<Candidate> {
    match os {
        HostOs::Windows => seq![
            Candidate { name: "scoop"@, path: ""@ },
            Candidate { name: "choco"@, path: ""@ },
        ],
        HostOs::MacOs => seq![
            Candidate { name: "brew"@, path: "/usr/local/bin/brew"@ },
            Candidate { name: "port"@, path: "/opt/local/bin/port"@ },
        ],
        HostOs::Linux => seq![
            Candidate { name: "apk"@, path: "/sbin/apk"@ },
            Candidate { name: "apt"@, path: "/usr/bin/apt"@ },
            Candidate { name: "emerge"@, path: "/usr/bin/emerge"@ },
            Candidate { name: "dnf"@, path: "/usr/bin/dnf"@ },
            Candidate { name: "zypper"@, path: "/usr/bin/zypper"@ },
        ],
        HostOs::Other => seq![],
    }
}

/// What a list of pairs of name and path stands for.
pub open spec fn pairs(list: Seq<(&'static str, &'static str)>) -> Seq<Candidate> {
    Seq::new(list.len(), |i: int| Candidate { name: list[i].0@, path: list[i].1@ })
}

/// The package managers to look for on a host, in the order of preference,
/// each with its name and the usual path of its executable.
pub fn candidates(os: HostOs) -> (out: Vec<(&'static str, &'static str)>)
    ensures
        pairs(out@) == candidates_of(os),
{
    let mut out: Vec<(&'static str, &'static str)> = Vec::new();
    match os {
        HostOs::Windows => {
            out.push(("scoop", ""));
            out.push(("choco", ""));
        },
        HostOs::MacOs => {
            out.push(("brew", "/usr/local/bin/brew"));
            out.push(("port", "/opt/local/bin/port"));
        },
        HostOs::Linux => {
            out.push(("apk", "/sbin/apk"));
            out.push(("apt", "/usr/bin/apt"));
            out.push(("emerge", "/usr/bin/emerge"));
            out.push(("dnf", "/usr/bin/dnf"));
            out.push(("zypper", "/usr/bin/zypper"));
        },
        HostOs::Other => {},
    }
    proof {
        assert(pairs(out@) =~= candidates_of(os));
    }
    out
}

/// Whether candidate `i` was found on the host, as far as `found` says:
/// a candidate that it does not speak of counts as absent.
pub open spec fn is_found(found: Seq<bool>, i: int) -> bool {
    0 <= i < found.len() && found[i]
}

/// The name of the first candidate from position `from` on that was found,
/// or `unknown` if none was.
pub open spec fn first_found(list: Seq<Candidate>, found: Seq<bool>, from: int) -> Seq<char>
    decreases list.len() - from,
{
    if from < 0 || from >= list.len() {
        "unknown"@
    } else if is_found(found, from) {
        list[from].name
    } else {
        first_found(list, found, from + 1)
    }
}

/// The name of the package manager that automatic dispatch settles on.
pub open spec fn detected(os: HostOs, found: Seq<bool>) -> Seq<char> {
    first_found(candidates_of(os), found, 0)
}

/// Detects the name of the package manager to be used in auto dispatch:
/// the first of the host's candidates that was found, where `found[i]`
/// says whether candidate `i` has an executable on the host; `unknown` if
/// none was found.
pub fn detect_pm_str(os: HostOs, found: &Vec<bool>) -> (out: &'static str)
    ensures
        out@ == detected(os, found@),
{
    let list = candidates(os);
    let mut i: usize = 0;
    while i < list.len()
        invariant
            i <= list.len(),
            pairs(list@) == candidates_of(os),
            first_found(candidates_of(os), found@, i as int) == detected(os, found@),
        decreases list.len() - i,
    {
        if i < found.len() && found[i] {
            assert(pairs(list@)[i as int].name == list@[i as int].0@);
            return list[i].0;
        }
        i += 1;
    }
    "unknown"
}

/// The candidate that is to be looked for next, where `found` says of the
/// candidates looked for so far whether they were found: none when the
/// configuration names a package manager, when a candidate was found, or
/// when every candidate was looked for.
pub open spec fn probe_due(cfg: ConfigView, os: HostOs, found: Seq<bool>) -> Option<int> {
    if cfg.default_pm is Some {
        None
    } else if exists|i: int| is_found(found, i) {
        None
    } else if found.len() < candidates_of(os).len() {
        Some(found.len() as int)
    } else {
        None
    }
}

/// Says which candidate is to be looked for on the host next, by its name
/// and the usual path of its executable, or that the host need not be
/// looked at any further.  The host is asked only where the configuration
/// names no package manager, one candidate after another in the order of
/// preference, and no further than the first that is found.
pub fn next_probe(cfg: &Config, os: HostOs, found: &Vec<bool>) -> (out: Option<
    (&'static str, &'static str),
>)
    ensures
        match probe_due(cfg@, os, found@) {
            Some(i) => out matches Some(pair) && pair.0@ == candidates_of(os)[i].name && pair.1@
                == candidates_of(os)[i].path,
            None => out is None,
        },
{
    if cfg.default_pm.is_some() {
        return None;
    }
    let mut i: usize = 0;
    while i < found.len()
        invariant
            i <= found.len(),
            forall|k: int| 0 <= k < i ==> !is_found(found@, k),
        decreases found.len() - i,
    {
        if found[i] {
            assert(is_found(found@, i as int));
            return None;
        }
        i += 1;
    }
    let list = candidates(os);
    if found.len() < list.len() {
        assert(pairs(list@)[found.len() as int].name == list@[found.len() as int].0@);
        assert(pairs(list@)[found.len() as int].path == list@[found.len() as int].1@);
        Some(list[found.len()])
    } else {
        None
    }
}

/// Once no candidate is left to look for, the detection is settled: what
/// might be found of further candidates does not change its outcome.
pub proof fn lemma_detection_settled(
    cfg: ConfigView,
    os: HostOs,
    found: Seq<bool>,
    more: Seq<bool>,
)
    requires
        cfg.default_pm is None,
        probe_due(cfg, os, found) is None,
    ensures
        detected(os, found + more) == detected(os, found),
{
    if exists|i: int| is_found(found, i) {
        let i = choose|i: int| is_found(found, i);
        assert(0 <= i && is_found(found, i));
    }
    lemma_first_found_settled(candidates_of(os), found, more, 0);
}

proof fn lemma_first_found_settled(
    list: Seq<Candidate>,
    found: Seq<bool>,
    more: Seq<bool>,
    from: int,
)
    requires
        0 <= from,
        list.len() <= found.len() || exists|i: int| from <= i && is_found(found, i),
    ensures
        first_found(list, found + more, from) == first_found(list, found, from),
    decreases list.len() - from,
{
    if from < list.len() {
        if list.len() > found.len() {
            let i = choose|i: int| from <= i && is_found(found, i);
            assert(from <= i < found.len());
        }
        assert((found + more)[from] == found[from]);
        if !is_found(found, from) {
            lemma_first_found_settled(list, found, more, from + 1);
        }
    }
}

/// The package managers that the dispatcher knows by name.
#[derive(Clone, Copy, Debug, PartialEq, Eq, Structural)]
pub enum PmKind {
    Chocolatey,
    Scoop,
    Homebrew,
    Macports,
    Portage,
    Apk,
    Apt,
    Dnf,
    Zypper,
    Conda,
    Pip,
    Pip3,
    Tlmgr,
    Unknown,
}

impl PmKind {
    /// The name that the package manager is called by; `unknown` for a
    /// package manager that the dispatcher does not know.
    pub open spec fn label(self) -> Seq<char> {
        match self {
            PmKind::Chocolatey => "choco"@,
            PmKind::Scoop => "scoop"@,
            PmKind::Homebrew => "brew"@,
            PmKind::Macports => "port"@,
            PmKind::Portage => "emerge"@,
            PmKind::Apk => "apk"@,
            PmKind::Apt => "apt"@,
            PmKind::Dnf => "dnf"@,
            PmKind::Zypper => "zypper"@,
            PmKind::Conda => "conda"@,
            PmKind::Pip => "pip"@,
            PmKind::Pip3 => "pip3"@,
            PmKind::Tlmgr => "tlmgr"@,
            PmKind::Unknown => "unknown"@,
        }
    }

    /// The name that the package manager is called by.
    pub fn name(self) -> (out: &'static str)
        ensures
            out@ == self.label(),
    {
        match self {
            PmKind::Chocolatey => "choco",
            PmKind::Scoop => "scoop",
            PmKind::Homebrew => "brew",
            PmKind::Macports => "port",
            PmKind::Portage => "emerge",
            PmKind::Apk => "apk",
            PmKind::Apt => "apt",
            PmKind::Dnf => "dnf",
            PmKind::Zypper => "zypper",
            PmKind::Conda => "conda",
            PmKind::Pip => "pip",
            PmKind::Pip3 => "pip3",
            PmKind::Tlmgr => "tlmgr",
            PmKind::Unknown => "unknown",
        }
    }
}

/// The package manager that goes by `name` on a host of kind `os`.
/// `port` is Macports only on macOS; a name that the dispatcher does not
/// know stands for an unknown package manager.
pub open spec fn kind_of(name: Seq<char>, os: HostOs) -> PmKind {
    if name == "choco"@ {
        PmKind::Chocolatey
    } else if name == "scoop"@ {
        PmKind::Scoop
    } else if name == "brew"@ {
        PmKind::Homebrew
    } else if name == "port"@ && os == HostOs::MacOs {
        PmKind::Macports
    } else if name == "emerge"@ {
        PmKind::Portage
    } else if name == "apk"@ {
        PmKind::Apk
    } else if name == "apt"@ {
        PmKind::Apt
    } else if name == "dnf"@ {
        PmKind::Dnf
    } else if name == "zypper"@ {
        PmKind::Zypper
    } else if name == "conda"@ {
        PmKind::Conda
    } else if name == "pip"@ {
        PmKind::Pip
    } else if name == "pip3"@ {
        PmKind::Pip3
    } else if name == "tlmgr"@ {
        PmKind::Tlmgr
    } else {
        PmKind::Unknown
    }
}

/// The package manager that goes by `name` on a host of kind `os`.
pub fn pm_kind(name: &str, os: HostOs) -> (out: PmKind)
    ensures
        out == kind_of(name@, os),
{
    if same_text(name, "choco") {
        PmKind::Chocolatey
    } else if same_text(name, "scoop") {
        PmKind::Scoop
    } else if same_text(name, "brew") {
        PmKind::Homebrew
    } else if same_text(name, "port") && os == HostOs::MacOs {
        PmKind::Macports
    } else if same_text(name, "emerge") {
        PmKind::Portage
    } else if same_text(name, "apk") {
        PmKind::Apk
    } else if same_text(name, "apt") {
        PmKind::Apt
    } else if same_text(name, "dnf") {
        PmKind::Dnf
    } else if same_text(name, "zypper") {
        PmKind::Zypper
    } else if same_text(name, "conda") {
        PmKind::Conda
    } else if same_text(name, "pip") {
        PmKind::Pip
    } else if same_text(name, "pip3") {
        PmKind::Pip3
    } else if same_text(name, "tlmgr") {
        PmKind::Tlmgr
    } else {
        PmKind::Unknown
    }
}

/// The name that the dispatcher goes by: the one that the configuration
/// states, and the detected one where it states none.
pub open spec fn chosen_name(cfg: ConfigView, os: HostOs, found: Seq<bool>) -> Seq<char> {
    match cfg.default_pm {
        Some(name) => name,
        None => detected(os, found),
    }
}

/// The one package manager that serves a run.
#[derive(Debug)]
pub enum Dispatched {
    /// Conda, defined in this library.
    Conda(Conda),
    /// A package manager of which nothing but the name is known.
    Unknown(Unknown),
    /// A package manager that the dispatcher knows by name and whose
    /// command templates are supplied from outside this library.
    External { kind: PmKind, cfg: Config },
}

/// Generates the package manager according to its name, feeding it with
/// the current configuration.  Where the configuration states no name, the
/// detected one is used.
pub fn dispatch(cfg: Config, os: HostOs, found: &Vec<bool>) -> (out: Dispatched)
    ensures
        match kind_of(chosen_name(cfg@, os, found@), os) {
            PmKind::Conda => out matches Dispatched::Conda(conda) && conda.spec_cfg() == cfg@,
            PmKind::Unknown => out matches Dispatched::Unknown(unknown) && unknown.spec_name()
                == Unknown::title(chosen_name(cfg@, os, found@)) && unknown.spec_cfg() == cfg@,
            known => out matches Dispatched::External { kind, cfg: kept } && kind == known
                && kept@ == cfg@,
        },
{
    let name = match &cfg.default_pm {
        Some(name) => name.clone(),
        None => word(detect_pm_str(os, found)),
    };
    let kind = pm_kind(name.as_str(), os);
    match kind {
        PmKind::Conda => Dispatched::Conda(Conda::new(cfg)),
        PmKind::Unknown => Dispatched::Unknown(Unknown::with_config(name.as_str(), cfg)),
        _ => Dispatched::External { kind, cfg },
    }
}

impl Pm for Dispatched {
    open spec fn spec_name(&self) -> Seq<char> {
        match self {
            Dispatched::Conda(conda) => conda.spec_name(),
            Dispatched::Unknown(unknown) => unknown.spec_name(),
            Dispatched::External { kind, cfg } => kind.label(),
        }
    }

    open spec fn spec_cfg(&self) -> ConfigView {
        match self {
            Dispatched::Conda(conda) => conda.spec_cfg(),
            Dispatched::Unknown(unknown) => unknown.spec_cfg(),
            Dispatched::External { kind, cfg } => cfg@,
        }
    }

    /// The operations of a package manager whose command templates this
    /// library does not have are all reported as unimplemented.
    open spec fn implements(&self, op: Op) -> bool {
        match self {
            Dispatched::Conda(conda) => conda.implements(op),
            Dispatched::Unknown(unknown) => unknown.implements(op),
            Dispatched::External { kind, cfg } => false,
        }
    }

    open spec fn plan(&self, op: Op, kws: Seq<Seq<char>>, flags: Seq<Seq<char>>) -> Seq<JobView> {
        match self {
            Dispatched::Conda(conda) => conda.plan(op, kws, flags),
            Dispatched::Unknown(unknown) => unknown.plan(op, kws, flags),
            Dispatched::External { kind, cfg } => Seq::empty(),
        }
    }

    fn name(&self) -> (out: &str) {
        match self {
            Dispatched::Conda(conda) => conda.name(),
            Dispatched::Unknown(unknown) => unknown.name(),
            Dispatched::External { kind, cfg } => kind.name(),
        }
    }

    fn cfg(&self) -> (out: &Config) {
        match self {
            Dispatched::Conda(conda) => conda.cfg(),
            Dispatched::Unknown(unknown) => unknown.cfg(),
            Dispatched::External { kind, cfg } => cfg,
        }
    }

    fn perform(&self, op: Op, kws: &Vec<String>, flags: &Vec<String>) -> (out: Result<
        Vec<Job>,
        Error,
    >) {
        match self {
            Dispatched::Conda(conda) => conda.perform(op, kws, flags),
            Dispatched::Unknown(unknown) => unknown.perform(op, kws, flags),
            Dispatched::External { kind, cfg } => Err(unimplemented(op, kind.name())),
        }
    }
}

} // verus!

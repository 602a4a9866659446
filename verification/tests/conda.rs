use pacaptr::config::Config;
use pacaptr::engine::{Action, Stage};
use pacaptr::error::Error;
use pacaptr::pm::conda::Conda;
use pacaptr::pm::unknown::Unknown;
use pacaptr::engine::Completion;
use pacaptr::pm::{next_turn, search_records, search_regex, verdict, Job, Op, Pm};
use pacaptr::invocation::Invocation;

fn strs(items: &[&str]) -> Vec<String> {
    items.iter().map(|s| s.to_string()).collect()
}

fn conda() -> Conda {
    Conda::new(Config::default())
}

/// The argument vector of a job that is about to spawn, and whether the
/// process gets the terminal.
fn spawn_of(job: &Job) -> (Vec<String>, bool) {
    match &job.stage {
        Stage::Act(Action::Spawn { argv, interactive }) => (argv.clone(), *interactive),
        other => panic!("unexpected stage: {:?}", other),
    }
}

fn keywords_of(job: &Job) -> Option<(Vec<String>, usize)> {
    job.search.as_ref().map(|s| (s.keywords.clone(), s.window))
}

#[test]
fn q_lists_or_searches() {
    let jobs = conda().q(&strs(&[]), &strs(&["--json"]));
    assert_eq!(jobs.len(), 1);
    assert_eq!(spawn_of(&jobs[0]), (strs(&["conda", "list", "--json"]), true));
    assert_eq!(keywords_of(&jobs[0]), None);

    let jobs = conda().q(&strs(&["numpy", "1\\."]), &strs(&["--json"]));
    assert_eq!(jobs.len(), 1);
    assert_eq!(spawn_of(&jobs[0]), (strs(&["conda", "list", "--json"]), false));
    assert_eq!(keywords_of(&jobs[0]), Some((strs(&["numpy", "1\\."]), 1)));
}

#[test]
fn qs_searches_the_list_of_installed_packages() {
    let jobs = conda().qs(&strs(&["py"]), &strs(&[]));
    assert_eq!(jobs.len(), 1);
    assert_eq!(spawn_of(&jobs[0]), (strs(&["conda", "list"]), false));
    assert_eq!(keywords_of(&jobs[0]), Some((strs(&["py"]), 1)));
}

#[test]
fn qo_and_si_run_with_the_plain_strategy() {
    let jobs = conda().qo(&strs(&["/bin/python"]), &strs(&["-v"]));
    assert_eq!(jobs.len(), 1);
    assert_eq!(spawn_of(&jobs[0]), (strs(&["conda", "package", "--which", "/bin/python", "-v"]), true));
    let jobs = conda().si(&strs(&["numpy"]), &strs(&[]));
    assert_eq!(jobs.len(), 1);
    assert_eq!(spawn_of(&jobs[0]), (strs(&["conda", "search", "--info", "numpy"]), true));
}

#[test]
fn changing_operations_silence_the_question() {
    let kws = strs(&["numpy", "scipy"]);
    let flags = strs(&["-n", "env"]);
    let jobs = conda().r(&kws, &flags);
    assert_eq!(jobs.len(), 1);
    assert_eq!(
        spawn_of(&jobs[0]),
        (strs(&["conda", "remove", "numpy", "scipy", "-n", "env", "-y"]), false)
    );
    let jobs = conda().s(&kws, &flags);
    assert_eq!(
        spawn_of(&jobs[0]),
        (strs(&["conda", "install", "numpy", "scipy", "-n", "env", "-y"]), false)
    );
    let jobs = conda().su(&kws, &flags);
    assert_eq!(
        spawn_of(&jobs[0]),
        (strs(&["conda", "update", "--all", "numpy", "scipy", "-n", "env", "-y"]), false)
    );
    let jobs = conda().suy(&kws, &flags);
    assert_eq!(
        spawn_of(&jobs[0]),
        (strs(&["conda", "update", "--all", "numpy", "scipy", "-n", "env", "-y"]), false)
    );
}

#[test]
fn sc_takes_flags_and_no_keywords() {
    let jobs = conda().sc(&strs(&["ignored"]), &strs(&["--dry-run"]));
    assert_eq!(jobs.len(), 1);
    assert_eq!(spawn_of(&jobs[0]), (strs(&["conda", "clean", "--all", "--dry-run", "-y"]), false));
}

#[test]
fn ss_searches_for_each_keyword_in_turn() {
    let jobs = conda().ss(&strs(&["num", "sci", "pan"]), &strs(&["-c", "forge"]));
    assert_eq!(jobs.len(), 3);
    assert_eq!(spawn_of(&jobs[0]).0, strs(&["conda", "search", "*num*", "-c", "forge"]));
    assert_eq!(spawn_of(&jobs[1]).0, strs(&["conda", "search", "*sci*", "-c", "forge"]));
    assert_eq!(spawn_of(&jobs[2]).0, strs(&["conda", "search", "*pan*", "-c", "forge"]));
    assert!(conda().ss(&strs(&[]), &strs(&["-c"])).is_empty());
}

#[test]
fn a_dry_run_shows_the_conda_command() {
    let mut cfg = Config::default();
    cfg.dry_run = true;
    let jobs = Conda::new(cfg).s(&strs(&["numpy"]), &strs(&[]));
    match &jobs[0].stage {
        Stage::Act(Action::Display { line }) => assert_eq!(line, "conda install numpy -y"),
        other => panic!("unexpected stage: {:?}", other),
    }
    let mut cfg = Config::default();
    cfg.dry_run = true;
    let inv = Invocation::new("conda", &strs(&["list"]));
    match search_regex(&cfg, &inv, &strs(&["a"])).stage {
        Stage::Act(Action::Display { line }) => assert_eq!(line, "conda list"),
        other => panic!("unexpected stage: {:?}", other),
    }
}

#[test]
fn a_search_can_read_records_of_several_lines() {
    let cfg = Config::default();
    let inv = Invocation::new("conda", &strs(&["search"])).with_flags(&strs(&["--info"]));
    let job = search_records(&cfg, &inv, &strs(&["numpy", "bsd"]), 4);
    assert_eq!(spawn_of(&job), (strs(&["conda", "search", "--info"]), false));
    assert_eq!(keywords_of(&job), Some((strs(&["numpy", "bsd"]), 4)));
}

#[test]
fn operations_are_known_by_their_names() {
    for op in Op::all() {
        assert_eq!(Op::parse(op.name()), Some(op));
    }
    assert_eq!(Op::parse("suy"), Some(Op::Suy));
    assert_eq!(Op::parse("Suy"), None);
    assert_eq!(Op::parse(""), None);
    assert_eq!(Op::parse("qq"), None);
    assert_eq!(Op::parse("s "), None);
}

#[test]
fn conda_performs_what_it_implements() {
    let kws = strs(&["numpy"]);
    let flags = strs(&[]);
    let implemented =
        [Op::Q, Op::Qo, Op::Qs, Op::R, Op::S, Op::Sc, Op::Si, Op::Ss, Op::Su, Op::Suy];
    for op in Op::all() {
        let result = conda().perform(op, &kws, &flags);
        if implemented.contains(&op) {
            assert_eq!(result.unwrap().len(), 1, "{:?}", op);
        } else {
            match result {
                Err(Error::OperationUnimplementedError { op: name, pm }) => {
                    assert_eq!(name, op.name());
                    assert_eq!(pm, "conda");
                }
                other => panic!("unexpected result for {:?}: {:?}", op, other),
            }
        }
    }
    let jobs = conda().perform(Op::R, &kws, &flags).unwrap();
    assert_eq!(spawn_of(&jobs[0]).0, strs(&["conda", "remove", "numpy", "-y"]));
}

#[test]
fn the_unknown_package_manager_implements_nothing() {
    let unknown = Unknown::new("pkgtool");
    assert_eq!(unknown.name(), "unknown package manager: pkgtool");
    assert!(unknown.cfg().default_pm.is_none());
    for op in Op::all() {
        match unknown.perform(op, &strs(&["x"]), &strs(&[])) {
            Err(error) => assert_eq!(
                error.message(),
                format!(
                    "Operation `{}` is unimplemented for `unknown package manager: pkgtool`",
                    op.name()
                )
            ),
            Ok(jobs) => panic!("unexpected jobs for {:?}: {:?}", op, jobs),
        }
    }
}

#[test]
fn the_operations_are_thirty_and_sorted() {
    let names: Vec<&str> = Op::all().into_iter().map(|op| op.name()).collect();
    assert_eq!(
        names,
        vec![
            "q", "qc", "qe", "qi", "qk", "ql", "qm", "qo", "qp", "qs", "qu", "r", "rn", "rns",
            "rs", "rss", "s", "sc", "scc", "sccc", "sg", "si", "sii", "sl", "ss", "su", "suy",
            "sw", "sy", "u",
        ]
    );
    let mut sorted = names.clone();
    sorted.sort();
    assert_eq!(names, sorted);
}

fn failed(reason: &str) -> Result<Completion, Error> {
    Err(Error::CmdSpawnError(reason.to_string()))
}

#[test]
fn the_jobs_of_an_operation_run_one_after_another() {
    assert_eq!(next_turn(3, &vec![]), Some(0));
    assert_eq!(next_turn(3, &vec![Ok(Completion::Declined)]), Some(1));
    assert_eq!(next_turn(3, &vec![Ok(Completion::Declined), Ok(Completion::Declined)]), Some(2));
    let all = vec![Ok(Completion::Declined), Ok(Completion::Declined), Ok(Completion::Declined)];
    assert_eq!(next_turn(3, &all), None);
    assert!(verdict(all).is_ok());
    assert_eq!(next_turn(0, &vec![]), None);
    assert!(verdict(vec![]).is_ok());
}

#[test]
fn the_first_failure_ends_the_operation() {
    let results = vec![Ok(Completion::Declined), failed("second")];
    assert_eq!(next_turn(5, &results), None);
    assert!(matches!(verdict(results), Err(Error::CmdSpawnError(reason)) if reason == "second"));

    let results = vec![failed("first"), Ok(Completion::Declined), failed("third")];
    assert_eq!(next_turn(5, &results), None);
    assert!(matches!(verdict(results), Err(Error::CmdSpawnError(reason)) if reason == "first"));
}

#[test]
fn a_failed_search_of_ss_keeps_the_later_keywords_from_running() {
    let jobs = conda().ss(&strs(&["a", "b", "c"]), &strs(&[]));
    let count = jobs.len();
    let mut ran = Vec::new();
    let mut results = Vec::new();
    let mut jobs = jobs.into_iter();
    while let Some(index) = next_turn(count, &results) {
        let job = jobs.next().unwrap();
        ran.push(spawn_of(&job).0);
        results.push(if index == 1 {
            Err(Error::CmdStatusCodeError {
                code: 3,
                output: pacaptr::exec::ExecutionOutcome::new(
                    Vec::new(),
                    Vec::new(),
                    pacaptr::exec::ExitStatus::Code(3),
                ),
            })
        } else {
            Ok(Completion::Declined)
        });
    }
    assert_eq!(
        ran,
        vec![strs(&["conda", "search", "*a*"]), strs(&["conda", "search", "*b*"])]
    );
    assert!(matches!(verdict(results), Err(Error::CmdStatusCodeError { code: 3, .. })));
}

#[test]
fn the_unknown_package_manager_can_hold_a_configuration() {
    let mut cfg = Config::default();
    cfg.dry_run = true;
    let unknown = Unknown::with_config("pkgtool", cfg);
    assert_eq!(unknown.name(), "unknown package manager: pkgtool");
    assert!(unknown.cfg().dry_run);
    assert!(!Unknown::new("pkgtool").cfg().dry_run);
}

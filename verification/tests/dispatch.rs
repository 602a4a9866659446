use pacaptr::config::Config;
use pacaptr::dispatch::{
    candidates, detect_pm_str, dispatch, next_probe, pm_kind, Dispatched, HostOs, PmKind,
};
use pacaptr::error::Error;
use pacaptr::pm::{Op, Pm};

#[test]
fn each_host_has_its_candidates() {
    assert_eq!(candidates(HostOs::Windows), vec![("scoop", ""), ("choco", "")]);
    assert_eq!(
        candidates(HostOs::MacOs),
        vec![("brew", "/usr/local/bin/brew"), ("port", "/opt/local/bin/port")]
    );
    assert_eq!(
        candidates(HostOs::Linux),
        vec![
            ("apk", "/sbin/apk"),
            ("apt", "/usr/bin/apt"),
            ("emerge", "/usr/bin/emerge"),
            ("dnf", "/usr/bin/dnf"),
            ("zypper", "/usr/bin/zypper"),
        ]
    );
    assert!(candidates(HostOs::Other).is_empty());
}

#[test]
fn detection_takes_the_first_candidate_found() {
    assert_eq!(detect_pm_str(HostOs::Linux, &vec![false, true, false, true, false]), "apt");
    assert_eq!(detect_pm_str(HostOs::Linux, &vec![true, true, true, true, true]), "apk");
    assert_eq!(detect_pm_str(HostOs::Linux, &vec![false, false, false, false, true]), "zypper");
    assert_eq!(detect_pm_str(HostOs::Linux, &vec![false, false, true]), "emerge");
    assert_eq!(detect_pm_str(HostOs::MacOs, &vec![false, true]), "port");
    assert_eq!(detect_pm_str(HostOs::MacOs, &vec![true, false]), "brew");
    assert_eq!(detect_pm_str(HostOs::Windows, &vec![false, true]), "choco");
    assert_eq!(detect_pm_str(HostOs::Windows, &vec![true]), "scoop");
}

#[test]
fn detection_without_a_find_is_unknown() {
    assert_eq!(detect_pm_str(HostOs::Linux, &vec![false; 5]), "unknown");
    assert_eq!(detect_pm_str(HostOs::Linux, &vec![]), "unknown");
    assert_eq!(detect_pm_str(HostOs::Other, &vec![true, true]), "unknown");
    assert_eq!(detect_pm_str(HostOs::Windows, &vec![false, false, true]), "unknown");
}

#[test]
fn names_map_to_their_package_managers() {
    let cases = [
        ("choco", PmKind::Chocolatey),
        ("scoop", PmKind::Scoop),
        ("brew", PmKind::Homebrew),
        ("emerge", PmKind::Portage),
        ("apk", PmKind::Apk),
        ("apt", PmKind::Apt),
        ("dnf", PmKind::Dnf),
        ("zypper", PmKind::Zypper),
        ("conda", PmKind::Conda),
        ("pip", PmKind::Pip),
        ("pip3", PmKind::Pip3),
        ("tlmgr", PmKind::Tlmgr),
        ("unknown", PmKind::Unknown),
        ("pacman", PmKind::Unknown),
        ("", PmKind::Unknown),
        ("Conda", PmKind::Unknown),
        ("apt ", PmKind::Unknown),
    ];
    for os in [HostOs::Windows, HostOs::MacOs, HostOs::Linux, HostOs::Other] {
        for (name, kind) in cases {
            assert_eq!(pm_kind(name, os), kind, "{} on {:?}", name, os);
        }
    }
}

#[test]
fn port_is_macports_on_macos_only() {
    assert_eq!(pm_kind("port", HostOs::MacOs), PmKind::Macports);
    assert_eq!(pm_kind("port", HostOs::Linux), PmKind::Unknown);
    assert_eq!(pm_kind("port", HostOs::Windows), PmKind::Unknown);
    assert_eq!(pm_kind("port", HostOs::Other), PmKind::Unknown);
}

#[test]
fn the_configured_name_beats_detection() {
    let mut cfg = Config::default();
    cfg.default_pm = Some("conda".to_string());
    cfg.dry_run = true;
    match dispatch(cfg, HostOs::Linux, &vec![true; 5]) {
        Dispatched::Conda(conda) => {
            assert_eq!(conda.name(), "conda");
            assert!(conda.cfg().dry_run);
            assert_eq!(conda.cfg().default_pm.as_deref(), Some("conda"));
        }
        other => panic!("unexpected dispatch: {:?}", other),
    }
}

#[test]
fn dispatch_falls_back_to_detection() {
    let mut cfg = Config::default();
    cfg.needed = true;
    match dispatch(cfg, HostOs::Linux, &vec![false, false, false, true]) {
        Dispatched::External { kind, cfg } => {
            assert_eq!(kind, PmKind::Dnf);
            assert!(cfg.needed);
        }
        other => panic!("unexpected dispatch: {:?}", other),
    }
}

#[test]
fn an_unknown_name_gives_the_unknown_package_manager() {
    let mut cfg = Config::default();
    cfg.default_pm = Some("pkgtool".to_string());
    cfg.dry_run = true;
    cfg.no_confirm = true;
    cfg.elevation_cmd = "doas".to_string();
    match dispatch(cfg, HostOs::Linux, &vec![true]) {
        Dispatched::Unknown(unknown) => {
            assert_eq!(unknown.name(), "unknown package manager: pkgtool");
            assert!(unknown.cfg().dry_run);
            assert!(unknown.cfg().no_confirm);
            assert!(!unknown.cfg().needed);
            assert_eq!(unknown.cfg().elevation_cmd, "doas");
            assert_eq!(unknown.cfg().default_pm.as_deref(), Some("pkgtool"));
        }
        other => panic!("unexpected dispatch: {:?}", other),
    }
    match dispatch(Config::default(), HostOs::Other, &vec![]) {
        Dispatched::Unknown(unknown) => {
            assert_eq!(unknown.name(), "unknown package manager: unknown")
        }
        other => panic!("unexpected dispatch: {:?}", other),
    }
    let mut cfg = Config::default();
    cfg.default_pm = Some("port".to_string());
    assert!(matches!(dispatch(cfg, HostOs::Linux, &vec![]), Dispatched::Unknown(_)));
    let mut cfg = Config::default();
    cfg.default_pm = Some("port".to_string());
    assert!(matches!(
        dispatch(cfg, HostOs::MacOs, &vec![]),
        Dispatched::External { kind: PmKind::Macports, .. }
    ));
}

#[test]
fn the_dispatched_package_manager_answers_for_itself() {
    let mut cfg = Config::default();
    cfg.default_pm = Some("conda".to_string());
    let pm = dispatch(cfg, HostOs::Linux, &vec![]);
    assert_eq!(pm.name(), "conda");
    assert_eq!(pm.cfg().default_pm.as_deref(), Some("conda"));
    let jobs = pm.perform(Op::Q, &vec![], &vec![]).unwrap();
    assert_eq!(jobs.len(), 1);
    assert!(matches!(
        pm.perform(Op::U, &vec![], &vec![]),
        Err(Error::OperationUnimplementedError { op, pm }) if op == "u" && pm == "conda"
    ));

    let mut cfg = Config::default();
    cfg.default_pm = Some("zypper".to_string());
    cfg.no_confirm = true;
    let pm = dispatch(cfg, HostOs::Linux, &vec![]);
    assert_eq!(pm.name(), "zypper");
    assert!(pm.cfg().no_confirm);
    assert!(matches!(
        pm.perform(Op::S, &vec!["vim".to_string()], &vec![]),
        Err(Error::OperationUnimplementedError { op, pm }) if op == "s" && pm == "zypper"
    ));

    let mut cfg = Config::default();
    cfg.default_pm = Some("pkgtool".to_string());
    let pm = dispatch(cfg, HostOs::Linux, &vec![]);
    assert_eq!(pm.name(), "unknown package manager: pkgtool");
    assert!(pm.perform(Op::S, &vec![], &vec![]).is_err());
}

#[test]
fn every_kind_has_its_name() {
    let kinds = [
        (PmKind::Chocolatey, "choco"),
        (PmKind::Scoop, "scoop"),
        (PmKind::Homebrew, "brew"),
        (PmKind::Macports, "port"),
        (PmKind::Portage, "emerge"),
        (PmKind::Apk, "apk"),
        (PmKind::Apt, "apt"),
        (PmKind::Dnf, "dnf"),
        (PmKind::Zypper, "zypper"),
        (PmKind::Conda, "conda"),
        (PmKind::Pip, "pip"),
        (PmKind::Pip3, "pip3"),
        (PmKind::Tlmgr, "tlmgr"),
        (PmKind::Unknown, "unknown"),
    ];
    for (kind, name) in kinds {
        assert_eq!(kind.name(), name);
        if kind != PmKind::Unknown {
            assert_eq!(pm_kind(name, HostOs::MacOs), kind);
        }
    }
}

#[test]
fn every_dispatched_package_manager_holds_the_configuration() {
    for name in ["conda", "apt", "nosuchpm", "port", ""] {
        let mut cfg = Config::default();
        cfg.default_pm = Some(name.to_string());
        cfg.dry_run = true;
        cfg.needed = true;
        let pm = dispatch(cfg, HostOs::Linux, &vec![]);
        assert!(pm.cfg().dry_run, "{}", name);
        assert!(pm.cfg().needed, "{}", name);
        assert_eq!(pm.cfg().default_pm.as_deref(), Some(name));
    }
    let mut cfg = Config::default();
    cfg.dry_run = true;
    let pm = dispatch(cfg, HostOs::Other, &vec![]);
    assert_eq!(pm.name(), "unknown package manager: unknown");
    assert!(pm.cfg().dry_run);
}

#[test]
fn the_host_is_asked_one_candidate_at_a_time() {
    let cfg = Config::default();
    assert_eq!(next_probe(&cfg, HostOs::Linux, &vec![]), Some(("apk", "/sbin/apk")));
    assert_eq!(next_probe(&cfg, HostOs::Linux, &vec![false]), Some(("apt", "/usr/bin/apt")));
    assert_eq!(
        next_probe(&cfg, HostOs::Linux, &vec![false, false, false, false]),
        Some(("zypper", "/usr/bin/zypper"))
    );
    assert_eq!(next_probe(&cfg, HostOs::Linux, &vec![false; 5]), None);
    assert_eq!(next_probe(&cfg, HostOs::Linux, &vec![false, true]), None);
    assert_eq!(next_probe(&cfg, HostOs::Linux, &vec![true]), None);
    assert_eq!(next_probe(&cfg, HostOs::Windows, &vec![false]), Some(("choco", "")));
    assert_eq!(next_probe(&cfg, HostOs::Other, &vec![]), None);
}

#[test]
fn the_host_is_not_asked_when_a_name_is_configured() {
    let mut cfg = Config::default();
    cfg.default_pm = Some("conda".to_string());
    for os in [HostOs::Windows, HostOs::MacOs, HostOs::Linux, HostOs::Other] {
        assert_eq!(next_probe(&cfg, os, &vec![]), None);
        assert_eq!(next_probe(&cfg, os, &vec![false]), None);
    }
}

#[test]
fn probing_in_turn_detects_what_probing_all_detects() {
    for present in [vec![], vec![1], vec![3], vec![2, 4], vec![0, 1, 2, 3, 4]] {
        let cfg = Config::default();
        let mut found = Vec::new();
        let mut asked = 0;
        while let Some((_name, _path)) = next_probe(&cfg, HostOs::Linux, &found) {
            found.push(present.contains(&found.len()));
            asked += 1;
        }
        let all: Vec<bool> = (0..5).map(|i| present.contains(&i)).collect();
        assert_eq!(detect_pm_str(HostOs::Linux, &found), detect_pm_str(HostOs::Linux, &all));
        let first = present.first().map_or(5, |i| i + 1);
        assert_eq!(asked, first);
    }
}

use pacaptr::bump_choco::{escape_attribute, BumpChoco, Feedback, Procedure, Release, Task};
use pacaptr::dispatch::HostOs;
use pacaptr::error::Error;
use pacaptr::template::fill;

fn strs(items: &[&str]) -> Vec<String> {
    items.iter().map(|s| s.to_string()).collect()
}

#[test]
fn the_version_is_the_tag_without_v_and_take() {
    assert_eq!(BumpChoco::version("v0.17.1").unwrap(), "0.17.1");
    assert_eq!(BumpChoco::version("0.17.1").unwrap(), "0.17.1");
    assert_eq!(BumpChoco::version("v0.17.1-take.2").unwrap(), "0.17.1");
    assert_eq!(BumpChoco::version("v0.17.1take.12").unwrap(), "0.17.1");
    assert_eq!(BumpChoco::version("v0.17.1-take.2-take.3").unwrap(), "0.17.1-take.3");
    assert_eq!(BumpChoco::version("vv1").unwrap(), "v1");
    assert_eq!(BumpChoco::version("v").unwrap(), "");
    assert_eq!(BumpChoco::version("").unwrap(), "");
    assert_eq!(BumpChoco::version("v1.0-takeX5").unwrap(), "1.0-takeX5");
}

#[test]
fn the_release_address_names_tag_and_archive() {
    assert_eq!(
        BumpChoco::release_uri("https://example.org/tool", "v1.2.3", "tool-windows-amd64.tar.gz"),
        "https://example.org/tool/releases/download/v1.2.3/tool-windows-amd64.tar.gz"
    );
}

#[test]
fn the_package_description_holds_the_escaped_version() {
    let template = "<package><version>{version}</version><v>{version}</v></package>";
    assert_eq!(
        BumpChoco::nuspec(template, "1.0"),
        "<package><version>1.0</version><v>1.0</v></package>"
    );
    assert_eq!(
        BumpChoco::nuspec("[{version}]", "<1 & \"2\" > '3'\n\r☃"),
        "[&lt;1 &amp; &quot;2&quot; &gt; &apos;3&apos;&#xA;&#xD;☃]"
    );
    assert_eq!(BumpChoco::nuspec("no placeholder {versions}", "1"), "no placeholder {versions}");
}

#[test]
fn the_checksum_is_the_first_word() {
    assert_eq!(BumpChoco::checksum("da39a3ee *./dist/tool.exe\n").unwrap(), "da39a3ee");
    assert_eq!(BumpChoco::checksum("  \t\nabc def").unwrap(), "abc");
    assert_eq!(BumpChoco::checksum("abc").unwrap(), "abc");
    assert_eq!(BumpChoco::checksum("abc\u{a0}def").unwrap(), "abc");
    assert_eq!(BumpChoco::checksum("\u{3000}abc\u{2003}def").unwrap(), "abc");
    assert_eq!(BumpChoco::checksum("a\u{200b}b c").unwrap(), "a\u{200b}b");
}

#[test]
fn output_without_a_word_has_no_checksum() {
    for output in ["", " ", "\n", " \t\r\n\u{85}\u{2028}"] {
        match BumpChoco::checksum(output) {
            Err(Error::OtherError(msg)) => {
                assert_eq!(msg, "Failed to fetch checksum from `openssl dgst`")
            }
            other => panic!("unexpected result: {:?}", other),
        }
    }
}

#[test]
fn the_first_word_agrees_with_the_standard_library() {
    for output in ["x y", " x", "\u{1680}x\u{205f}y", "x\u{202f}", "\u{b}\u{c}x", "\u{feff}x y"] {
        let expected = output.split_whitespace().next().map(|s| s.to_string());
        assert_eq!(BumpChoco::checksum(output).ok(), expected, "first word of {:?}", output);
    }
}

#[test]
fn checksums_are_listed_line_by_line() {
    assert_eq!(BumpChoco::checksums("aa", "bb"), "sha1: aa\nsha256: bb\n");
}

#[test]
fn the_verification_notice_is_filled_in() {
    let template = "repo {repository}\nfrom {release_uri}\n{checksums}end {repository}";
    assert_eq!(
        BumpChoco::verification(template, "https://r", "https://r/x.tar.gz", "sha1: aa\n"),
        "repo https://r\nfrom https://r/x.tar.gz\nsha1: aa\nend https://r"
    );
    assert_eq!(
        BumpChoco::verification("{repository}", "{checksums}", "u", "c"),
        "c"
    );
}

#[test]
fn templates_are_filled_from_left_to_right() {
    assert_eq!(fill("a{x}b{x}c", "x", "1"), "a1b1c");
    assert_eq!(fill("{x}", "x", ""), "");
    assert_eq!(fill("{x}{x}", "x", "{x}"), "{x}{x}");
    assert_eq!(fill("{{x}}", "x", "y"), "{y}");
    assert_eq!(fill("{x", "x", "y"), "{x");
    assert_eq!(fill("x}", "x", "y"), "x}");
    assert_eq!(fill("{}", "", "y"), "y");
    assert_eq!(fill("", "x", "y"), "");
    assert_eq!(fill("ü{ä}ö", "ä", "☃"), "ü☃ö");
    assert_eq!(fill("{ab}{a}", "a", "1"), "{ab}1");
}

#[test]
fn the_commands_of_the_procedure() {
    assert_eq!(
        BumpChoco::download("https://r/x.tar.gz").argv(),
        strs(&["powershell", "iwr", "https://r/x.tar.gz", "-OutFile", "./release.tar.gz"])
    );
    assert_eq!(
        BumpChoco::extract("./dist/choco/tools/").argv(),
        strs(&["tar", "xvf", "./release.tar.gz", "-C", "./dist/choco/tools/"])
    );
    assert_eq!(
        BumpChoco::add_license().argv(),
        strs(&["cp", "LICENSE", "dist/choco/tools/LICENSE.txt"])
    );
    assert_eq!(BumpChoco::show("a/b.txt").argv(), strs(&["cat", "a/b.txt"]));
    assert_eq!(BumpChoco::remove("a/b.txt").argv(), strs(&["rm", "a/b.txt"]));
    assert_eq!(
        BumpChoco::digest("sha256", "./dist/tool.exe").argv(),
        strs(&["openssl", "dgst", "-r", "-sha256", "./dist/tool.exe"])
    );
    assert_eq!(
        BumpChoco::set_api_key("k3y").argv(),
        strs(&[
            "choco",
            "apikey",
            "--key",
            "k3y",
            "--source",
            "https://push.chocolatey.org",
            "--verbose"
        ])
    );
    assert_eq!(
        BumpChoco::pack("dist/choco/pacaptr.nuspec").argv(),
        strs(&["choco", "pack", "dist/choco/pacaptr.nuspec", "--verbose"])
    );
    assert_eq!(
        BumpChoco::push("0.17.1").argv(),
        strs(&[
            "choco",
            "push",
            "pacaptr.0.17.1.nupkg",
            "--source",
            "https://push.chocolatey.org",
            "--verbose"
        ])
    );
}

fn release() -> Release {
    Release {
        homepage: "https://example.org/tool".to_string(),
        archive: "tool-windows-amd64.tar.gz".to_string(),
        artifact: "tool.exe".to_string(),
    }
}

fn text(value: &str) -> Feedback {
    Feedback::Text(value.to_string())
}

/// What one task looks like from outside.
fn brief(task: &Task) -> String {
    match task {
        Task::ReadTag => "tag?".to_string(),
        Task::Say(text) => format!("say {text}"),
        Task::Run(command) => format!("run {}", command.render()),
        Task::Capture(command) => format!("capture {}", command.render()),
        Task::ReadFile { path } => format!("read {path}"),
        Task::WriteFile { path, contents } => format!("write {path}: {contents}"),
        Task::ReadEnv { name } => format!("env {name}"),
        Task::Finished => "finished".to_string(),
        Task::Failed(e) => format!("failed: {}", e.message()),
    }
}

/// The report of a caller for whom everything works.
fn answer(task: &Task) -> Feedback {
    match task {
        Task::ReadTag => text("v1.2.3-take.2"),
        Task::ReadFile { path } if path.ends_with(".nuspec") => text("<version>{version}</version>"),
        Task::ReadFile { .. } => text("{repository} {release_uri}\n{checksums}"),
        Task::Capture(command) if command.argv().contains(&"-sha1".to_string()) => {
            text("aaaa *tool.exe\n")
        }
        Task::Capture(_) => text("bbbb *tool.exe\n"),
        Task::ReadEnv { .. } => text("k3y"),
        _ => Feedback::Done,
    }
}

#[test]
fn the_procedure_goes_through_its_tasks_in_order() {
    let mut procedure = Procedure::begin(release(), HostOs::Windows);
    let mut seen = Vec::new();
    loop {
        let task = procedure.task();
        seen.push(brief(&task));
        if matches!(task, Task::Finished | Task::Failed(_)) {
            break;
        }
        procedure = procedure.proceed(answer(&task));
    }
    let uri = "https://example.org/tool/releases/download/v1.2.3-take.2/tool-windows-amd64.tar.gz";
    let expected = vec![
        "tag?".to_string(),
        "say :: Downloading release binary...".to_string(),
        format!("run powershell iwr {uri} -OutFile ./release.tar.gz"),
        "say :: Extracting release binary...".to_string(),
        "run tar xvf ./release.tar.gz -C ./dist/choco/tools/".to_string(),
        "say :: Adding license".to_string(),
        "run cp LICENSE dist/choco/tools/LICENSE.txt".to_string(),
        "say :: Generating Nuspec from template...".to_string(),
        "read dist/choco/pacaptr.template.nuspec".to_string(),
        "write dist/choco/pacaptr.nuspec: <version>1.2.3</version>".to_string(),
        "run cat dist/choco/pacaptr.nuspec".to_string(),
        "say :: Generating `VERIFICATION.txt`...".to_string(),
        "read dist/choco/tools/VERIFICATION.template.txt".to_string(),
        "capture openssl dgst -r -sha1 ./dist/choco/tools/tool.exe".to_string(),
        "capture openssl dgst -r -sha256 ./dist/choco/tools/tool.exe".to_string(),
        format!(
            "write dist/choco/tools/VERIFICATION.txt: https://example.org/tool {uri}\nsha1: aaaa\nsha256: bbbb\n"
        ),
        "run cat dist/choco/tools/VERIFICATION.txt".to_string(),
        "run rm dist/choco/tools/VERIFICATION.template.txt".to_string(),
        "say :: Setting choco API key...".to_string(),
        "env CHOCO_API_KEY".to_string(),
        "run choco apikey --key k3y --source https://push.chocolatey.org --verbose".to_string(),
        "say :: Packing up NuGet package...".to_string(),
        "run choco pack dist/choco/pacaptr.nuspec --verbose".to_string(),
        "say :: Pushing to choco repository...".to_string(),
        "run choco push pacaptr.1.2.3.nupkg --source https://push.chocolatey.org --verbose"
            .to_string(),
        "finished".to_string(),
    ];
    assert_eq!(seen, expected);
    let procedure = procedure.proceed(Feedback::Done);
    assert!(matches!(procedure.task(), Task::Finished));
}

#[test]
fn a_failed_task_fails_the_procedure_for_good() {
    let mut procedure = Procedure::begin(release(), HostOs::Windows);
    procedure = procedure.proceed(text("v1.0"));
    procedure = procedure.proceed(Feedback::Done);
    procedure = procedure.proceed(Feedback::Failed("no network".to_string()));
    assert_eq!(brief(&procedure.task()), "failed: no network");
    procedure = procedure.proceed(Feedback::Done);
    procedure = procedure.proceed(text("x"));
    assert_eq!(brief(&procedure.task()), "failed: no network");
}

#[test]
fn a_report_of_the_wrong_kind_fails_the_procedure() {
    let procedure = Procedure::begin(release(), HostOs::Windows).proceed(Feedback::Done);
    assert_eq!(brief(&procedure.task()), "failed: The task was to hand back a text");
    let procedure = Procedure::begin(release(), HostOs::Windows).proceed(text("v1.0")).proceed(text("what"));
    assert_eq!(brief(&procedure.task()), "failed: The task was to hand back no text");
}

#[test]
fn the_procedure_fails_without_a_checksum() {
    let mut procedure = Procedure::begin(release(), HostOs::Windows);
    loop {
        let task = procedure.task();
        if matches!(task, Task::Capture(_)) {
            break;
        }
        procedure = procedure.proceed(answer(&task));
    }
    let procedure = procedure.proceed(text("  \n"));
    assert_eq!(
        brief(&procedure.task()),
        "failed: Failed to fetch checksum from `openssl dgst`"
    );
}

#[test]
fn attribute_values_are_escaped() {
    assert_eq!(escape_attribute(""), "");
    assert_eq!(escape_attribute("1.0.0"), "1.0.0");
    assert_eq!(escape_attribute("<>'\"&\n\r"), "&lt;&gt;&apos;&quot;&amp;&#xA;&#xD;");
    assert_eq!(escape_attribute("a&amp;b"), "a&amp;amp;b");
    assert_eq!(escape_attribute("\t é☃"), "\t é☃");
}

#[test]
fn escaping_agrees_with_the_xml_crate() {
    for text in ["", "plain", "<a href='x'>\"&\"</a>", "l1\nl2\r\n", "☃<é>&", "&&&", "\u{10ffff}'"] {
        assert_eq!(escape_attribute(text), xml::escape::escape_str_attribute(text), "{:?}", text);
    }
}

#[test]
fn the_procedure_runs_under_windows_only() {
    assert!(BumpChoco::can_run_on(HostOs::Windows));
    assert!(!BumpChoco::can_run_on(HostOs::Linux));
    assert!(!BumpChoco::can_run_on(HostOs::MacOs));
    assert!(!BumpChoco::can_run_on(HostOs::Other));
}

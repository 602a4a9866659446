//! Publishing a release to the Chocolatey repository: the texts and the
//! commands of the procedure.  Running the commands and reading and writing
//! the files is left to the caller.

use vstd::prelude::*;
use crate::dispatch::HostOs;
use crate::error::{Error, ErrorView};
use crate::invocation::{Invocation, InvocationView};
use crate::patterns::{pattern_replaces, regex_compiles, regex_replaced};
use crate::template::{fill, filled};
use crate::text::{chars_of, owned_words, push_char, slices, word};

verus! {

/// The procedure that publishes a release to the Chocolatey repository.
#[derive(Debug)]
pub struct BumpChoco {}

/// What an XML attribute value holds in place of `c`: the entity of a
/// markup character or of a line break, and `c` itself otherwise.
pub open spec fn escaped_char(c: char) -> Seq<char> {
    if c == '<' {
        "&lt;"@
    } else if c == '>' {
        "&gt;"@
    } else if c == '"' {
        "&quot;"@
    } else if c == '\'' {
        "&apos;"@
    } else if c == '&' {
        "&amp;"@
    } else if c == '\n' {
        "&#xA;"@
    } else if c == '\r' {
        "&#xD;"@
    } else {
        seq![c]
    }
}

/// `text` as it is written inside an XML attribute value.
pub open spec fn attr_escaped(text: Seq<char>) -> Seq<char>
    decreases text.len(),
{
    if text.len() == 0 {
        Seq::empty()
    } else {
        attr_escaped(text.drop_last()) + escaped_char(text.last())
    }
}

/// Writes `text` as it stands inside an XML attribute value: each markup
/// character and each line break gives way to its entity, and every other
/// character is kept.
pub fn escape_attribute(text: &str) -> (out: String)
    ensures
        out@ == attr_escaped(text@),
{
    let mut out = String::new();
    proof {
        assert(text@.take(0) =~= Seq::<char>::empty());
    }
    for c in it: text.chars()
        invariant
            it.seq() == text@,
            out@ == attr_escaped(text@.take(it.index() as int)),
    {
        let ghost at: int = it.index() as int;
        proof {
            assert(text@[at] == c);
            assert(text@.take(at + 1).drop_last() =~= text@.take(at));
            assert(text@.take(at + 1).last() == c);
        }
        if c == '<' {
            out.append("&lt;");
        } else if c == '>' {
            out.append("&gt;");
        } else if c == '"' {
            out.append("&quot;");
        } else if c == '\'' {
            out.append("&apos;");
        } else if c == '&' {
            out.append("&amp;");
        } else if c == '\n' {
            out.append("&#xA;");
        } else if c == '\r' {
            out.append("&#xD;");
        } else {
            push_char(&mut out, c);
            proof {
                assert(out@ =~= attr_escaped(text@.take(at)) + seq![c]);
            }
        }
    }
    proof {
        assert(text@.take(text@.len() as int) =~= text@);
    }
    out
}

/// `tag` without the `v` that it starts with, if it starts with one.
pub open spec fn without_v(tag: Seq<char>) -> Seq<char> {
    if tag.len() > 0 && tag[0] == 'v' {
        tag.skip(1)
    } else {
        tag
    }
}

/// The regular expression of the suffix that marks a repeated release.
pub open spec fn take_pattern() -> Seq<char> {
    "-?take\\.\\d+"@
}

/// Whether `c` is white space: a character with the Unicode property
/// `White_Space`.
pub open spec fn is_space(c: char) -> bool {
    let code = c as u32;
    (9 <= code <= 13) || code == 0x20 || code == 0x85 || code == 0xA0 || code == 0x1680 || (0x2000
        <= code <= 0x200A) || code == 0x2028 || code == 0x2029 || code == 0x202F || code
        == 0x205F || code == 0x3000
}

/// The first position at or after `from` that holds no white space, or
/// the length of `text`.
pub open spec fn token_start(text: Seq<char>, from: int) -> int
    decreases text.len() - from,
{
    if from < 0 || from >= text.len() || !is_space(text[from]) {
        from
    } else {
        token_start(text, from + 1)
    }
}

/// The first position at or after `from` that holds white space, or the
/// length of `text`.
pub open spec fn token_end(text: Seq<char>, from: int) -> int
    decreases text.len() - from,
{
    if from < 0 || from >= text.len() || is_space(text[from]) {
        from
    } else {
        token_end(text, from + 1)
    }
}

/// The first word of `text`: the characters from the first that is no
/// white space up to the next white space; none where `text` holds nothing
/// but white space.
pub open spec fn first_token(text: Seq<char>) -> Option<Seq<char>> {
    let start = token_start(text, 0);
    if start >= text.len() {
        None
    } else {
        Some(text.subrange(start, token_end(text, start)))
    }
}

fn space(c: char) -> (out: bool)
    ensures
        out == is_space(c),
{
    let code = c as u32;
    (9 <= code && code <= 13) || code == 0x20 || code == 0x85 || code == 0xA0 || code == 0x1680
        || (0x2000 <= code && code <= 0x200A) || code == 0x2028 || code == 0x2029 || code
        == 0x202F || code == 0x205F || code == 0x3000
}

/// The address from which releases are handed out.
pub open spec fn release_address(homepage: Seq<char>, tag: Seq<char>, archive: Seq<char>) -> Seq<
    char,
> {
    homepage + "/releases/download/"@ + tag + "/"@ + archive
}

/// One line of the list of checksums.
pub open spec fn checksum_line(algo: Seq<char>, sum: Seq<char>) -> Seq<char> {
    algo + ": "@ + sum + "\n"@
}

impl BumpChoco {
    /// Whether the procedure runs on a host of kind `os`: it is meant to
    /// run under Windows.
    pub open spec fn runs_on(os: HostOs) -> bool {
        os == HostOs::Windows
    }

    /// Whether the procedure runs on a host of kind `os`.
    pub fn can_run_on(os: HostOs) -> (out: bool)
        ensures
            out == BumpChoco::runs_on(os),
    {
        os == HostOs::Windows
    }

    /// The version that a release tag stands for: the tag without its
    /// leading `v` and without the suffix of a repeated release.
    pub fn version(tag: &str) -> (out: Result<String, Error>)
        ensures
            out is Ok <==> regex_compiles(take_pattern()),
            out matches Ok(ver) ==> ver@ == regex_replaced(take_pattern(), without_v(tag@), ""@),
            out matches Err(e) ==> e@ is OtherError,
    {
        let bare = strip_v(tag);
        match pattern_replaces("-?take\\.\\d+", bare, "") {
            Ok(ver) => Ok(ver),
            Err(fault) => Err(Error::OtherError(fault)),
        }
    }

    /// The address of the archive `archive` of the release `tag`.
    pub fn release_uri(homepage: &str, tag: &str, archive: &str) -> (out: String)
        ensures
            out@ == release_address(homepage@, tag@, archive@),
    {
        let mut out = String::new();
        out.append(homepage);
        out.append("/releases/download/");
        out.append(tag);
        out.append("/");
        out.append(archive);
        out
    }

    /// The package description: the template with the version filled in,
    /// written as an XML attribute value.
    pub fn nuspec(template: &str, ver: &str) -> (out: String)
        ensures
            out@ == filled(template@, "version"@, attr_escaped(ver@)),
    {
        let version = escape_attribute(ver);
        fill(template, "version", version.as_str())
    }

    /// The checksum that `openssl dgst -r` printed: the first word of its
    /// output.
    pub fn checksum(output: &str) -> (out: Result<String, Error>)
        ensures
            match first_token(output@) {
                Some(sum) => out matches Ok(found) && found@ == sum,
                None => out matches Err(e) && e@ == ErrorView::OtherError(
                    "Failed to fetch checksum from `openssl dgst`"@,
                ),
            },
    {
        let text = chars_of(output);
        let mut start: usize = 0;
        while start < text.len() && space(text[start])
            invariant
                start <= text.len(),
                token_start(text@, start as int) == token_start(text@, 0),
            decreases text.len() - start,
        {
            start += 1;
        }
        if start >= text.len() {
            return Err(Error::OtherError(word("Failed to fetch checksum from `openssl dgst`")));
        }
        let mut sum = String::new();
        let mut end = start;
        while end < text.len() && !space(text[end])
            invariant
                start <= end <= text.len(),
                token_end(text@, end as int) == token_end(text@, start as int),
                sum@ == text@.subrange(start as int, end as int),
            decreases text.len() - end,
        {
            push_char(&mut sum, text[end]);
            proof {
                assert(text@.subrange(start as int, end + 1) =~= text@.subrange(
                    start as int,
                    end as int,
                ).push(text@[end as int]));
            }
            end += 1;
        }
        Ok(sum)
    }

    /// The list of checksums: one line for SHA-1, one for SHA-256.
    pub fn checksums(sha1: &str, sha256: &str) -> (out: String)
        ensures
            out@ == checksum_line("sha1"@, sha1@) + checksum_line("sha256"@, sha256@),
    {
        let mut out = String::new();
        out.append("sha1");
        out.append(": ");
        out.append(sha1);
        out.append("\n");
        out.append("sha256");
        out.append(": ");
        out.append(sha256);
        out.append("\n");
        out
    }

    /// The verification notice: the template with the repository, the
    /// address of the release and the checksums filled in, in this order.
    pub fn verification(
        template: &str,
        repository: &str,
        release_uri: &str,
        checksums: &str,
    ) -> (out: String)
        ensures
            out@ == filled(
                filled(
                    filled(template@, "repository"@, repository@),
                    "release_uri"@,
                    release_uri@,
                ),
                "checksums"@,
                checksums@,
            ),
    {
        let first = fill(template, "repository", repository);
        let second = fill(first.as_str(), "release_uri", release_uri);
        fill(second.as_str(), "checksums", checksums)
    }

    /// The command that downloads the release archive.
    pub fn download(release_uri: &str) -> (out: Invocation)
        ensures
            out@ == InvocationView::fresh(
                "powershell"@,
                seq!["iwr"@, release_uri@, "-OutFile"@, "./release.tar.gz"@],
            ),
    {
        let list = vec!["iwr", release_uri, "-OutFile", "./release.tar.gz"];
        proof {
            assert(slices(list@) =~= seq!["iwr"@, release_uri@, "-OutFile"@, "./release.tar.gz"@]);
        }
        Invocation::new("powershell", &owned_words(list))
    }

    /// The command that unpacks the release archive into `bin_out_dir`.
    pub fn extract(bin_out_dir: &str) -> (out: Invocation)
        ensures
            out@ == InvocationView::fresh(
                "tar"@,
                seq!["xvf"@, "./release.tar.gz"@, "-C"@, bin_out_dir@],
            ),
    {
        let list = vec!["xvf", "./release.tar.gz", "-C", bin_out_dir];
        proof {
            assert(slices(list@) =~= seq!["xvf"@, "./release.tar.gz"@, "-C"@, bin_out_dir@]);
        }
        Invocation::new("tar", &owned_words(list))
    }

    /// The command that puts the license beside the binary.
    pub fn add_license() -> (out: Invocation)
        ensures
            out@ == InvocationView::fresh(
                "cp"@,
                seq!["LICENSE"@, "dist/choco/tools/LICENSE.txt"@],
            ),
    {
        let list = vec!["LICENSE", "dist/choco/tools/LICENSE.txt"];
        proof {
            assert(slices(list@) =~= seq!["LICENSE"@, "dist/choco/tools/LICENSE.txt"@]);
        }
        Invocation::new("cp", &owned_words(list))
    }

    /// The command that shows the file at `path`.
    pub fn show(path: &str) -> (out: Invocation)
        ensures
            out@ == InvocationView::fresh("cat"@, seq![path@]),
    {
        let list = vec![path];
        proof {
            assert(slices(list@) =~= seq![path@]);
        }
        Invocation::new("cat", &owned_words(list))
    }

    /// The command that removes the file at `path`.
    pub fn remove(path: &str) -> (out: Invocation)
        ensures
            out@ == InvocationView::fresh("rm"@, seq![path@]),
    {
        let list = vec![path];
        proof {
            assert(slices(list@) =~= seq![path@]);
        }
        Invocation::new("rm", &owned_words(list))
    }

    /// The command that prints the checksum of the file at `path` by the
    /// algorithm `algo`.
    pub fn digest(algo: &str, path: &str) -> (out: Invocation)
        ensures
            out@ == InvocationView::fresh(
                "openssl"@,
                seq!["dgst"@, "-r"@, "-"@ + algo@, path@],
            ),
    {
        let mut switch = String::new();
        switch.append("-");
        switch.append(algo);
        let list = vec!["dgst", "-r", switch.as_str(), path];
        proof {
            assert(slices(list@) =~= seq!["dgst"@, "-r"@, "-"@ + algo@, path@]);
        }
        Invocation::new("openssl", &owned_words(list))
    }

    /// The command that registers the key of the repository.
    pub fn set_api_key(key: &str) -> (out: Invocation)
        ensures
            out@ == InvocationView::fresh(
                "choco"@,
                seq![
                    "apikey"@,
                    "--key"@,
                    key@,
                    "--source"@,
                    "https://push.chocolatey.org"@,
                    "--verbose"@,
                ],
            ),
    {
        let list = vec![
            "apikey",
            "--key",
            key,
            "--source",
            "https://push.chocolatey.org",
            "--verbose",
        ];
        proof {
            assert(slices(list@) =~= seq![
                "apikey"@,
                "--key"@,
                key@,
                "--source"@,
                "https://push.chocolatey.org"@,
                "--verbose"@,
            ]);
        }
        Invocation::new("choco", &owned_words(list))
    }

    /// The command that packs the package described at `nuspec_path`.
    pub fn pack(nuspec_path: &str) -> (out: Invocation)
        ensures
            out@ == InvocationView::fresh("choco"@, seq!["pack"@, nuspec_path@, "--verbose"@]),
    {
        let list = vec!["pack", nuspec_path, "--verbose"];
        proof {
            assert(slices(list@) =~= seq!["pack"@, nuspec_path@, "--verbose"@]);
        }
        Invocation::new("choco", &owned_words(list))
    }

    /// The name of the package file of the version `ver`.
    pub open spec fn package_file(ver: Seq<char>) -> Seq<char> {
        "pacaptr."@ + ver + ".nupkg"@
    }

    /// The command that pushes the package of the version `ver`.
    pub fn push(ver: &str) -> (out: Invocation)
        ensures
            out@ == InvocationView::fresh(
                "choco"@,
                seq![
                    "push"@,
                    BumpChoco::package_file(ver@),
                    "--source"@,
                    "https://push.chocolatey.org"@,
                    "--verbose"@,
                ],
            ),
    {
        let mut file = String::new();
        file.append("pacaptr.");
        file.append(ver);
        file.append(".nupkg");
        let list = vec![
            "push",
            file.as_str(),
            "--source",
            "https://push.chocolatey.org",
            "--verbose",
        ];
        proof {
            assert(slices(list@) =~= seq![
                "push"@,
                BumpChoco::package_file(ver@),
                "--source"@,
                "https://push.chocolatey.org"@,
                "--verbose"@,
            ]);
        }
        Invocation::new("choco", &owned_words(list))
    }
}

/// What the procedure needs to know of a release: where the project
/// lives, and how the archive and the binary in it are called.
#[derive(Debug)]
pub struct Release {
    pub homepage: String,
    pub archive: String,
    pub artifact: String,
}

/// What the caller is to do next.
#[derive(Debug)]
pub enum Task {
    /// Read the tag of the release and hand it back.
    ReadTag,
    /// Tell the user this.
    Say(String),
    /// Run the command.
    Run(Invocation),
    /// Run the command and hand back what it printed.
    Capture(Invocation),
    /// Read the file and hand back what it holds.
    ReadFile { path: String },
    /// Write the text to the file.
    WriteFile { path: String, contents: String },
    /// Read the variable of the environment and hand back its value.
    ReadEnv { name: String },
    /// Nothing is left to do.
    Finished,
    /// The procedure has failed.
    Failed(Error),
}

/// What a [`Task`] stands for.
pub enum TaskView {
    ReadTag,
    Say(Seq<char>),
    Run(InvocationView),
    Capture(InvocationView),
    ReadFile { path: Seq<char> },
    WriteFile { path: Seq<char>, contents: Seq<char> },
    ReadEnv { name: Seq<char> },
    Finished,
    Failed(ErrorView),
}

impl View for Task {
    type V = TaskView;

    open spec fn view(&self) -> TaskView {
        match self {
            Task::ReadTag => TaskView::ReadTag,
            Task::Say(text) => TaskView::Say(text@),
            Task::Run(command) => TaskView::Run(command@),
            Task::Capture(command) => TaskView::Capture(command@),
            Task::ReadFile { path } => TaskView::ReadFile { path: path@ },
            Task::WriteFile { path, contents } => TaskView::WriteFile {
                path: path@,
                contents: contents@,
            },
            Task::ReadEnv { name } => TaskView::ReadEnv { name: name@ },
            Task::Finished => TaskView::Finished,
            Task::Failed(e) => TaskView::Failed(e@),
        }
    }
}

/// What the caller reports of the task that it was given.
#[derive(Debug)]
pub enum Feedback {
    /// The task is done.
    Done,
    /// The task is done, and this is the text that it was to hand back.
    Text(String),
    /// The task failed, for this reason.
    Failed(String),
}

/// What a [`Feedback`] stands for.
pub enum FeedbackView {
    Done,
    Text(Seq<char>),
    Failed(Seq<char>),
}

impl View for Feedback {
    type V = FeedbackView;

    open spec fn view(&self) -> FeedbackView {
        match self {
            Feedback::Done => FeedbackView::Done,
            Feedback::Text(text) => FeedbackView::Text(text@),
            Feedback::Failed(reason) => FeedbackView::Failed(reason@),
        }
    }
}

/// The procedure on its way: the number of the task that is under way, and
/// what has been learnt so far.
#[derive(Debug)]
pub struct Procedure {
    step: u8,
    homepage: String,
    archive: String,
    artifact: String,
    ver: String,
    release_uri: String,
    template: String,
    sha1: String,
    pending: String,
    fault: String,
}

/// What a [`Procedure`] stands for.
pub struct ProcedureView {
    /// The number of the task that is under way.
    pub step: int,
    pub homepage: Seq<char>,
    pub archive: Seq<char>,
    pub artifact: Seq<char>,
    /// The version of the release, once the tag is known.
    pub ver: Seq<char>,
    /// The address of the release archive, once the tag is known.
    pub release_uri: Seq<char>,
    /// The template of the verification notice, once it is read.
    pub template: Seq<char>,
    /// The SHA-1 checksum of the binary, once it is taken.
    pub sha1: Seq<char>,
    /// The text that the next task of writing or registering is about.
    pub pending: Seq<char>,
    /// Why the procedure failed, if it did.
    pub fault: Seq<char>,
}

impl View for Procedure {
    type V = ProcedureView;

    closed spec fn view(&self) -> ProcedureView {
        ProcedureView {
            step: self.step as int,
            homepage: self.homepage@,
            archive: self.archive@,
            artifact: self.artifact@,
            ver: self.ver@,
            release_uri: self.release_uri@,
            template: self.template@,
            sha1: self.sha1@,
            pending: self.pending@,
            fault: self.fault@,
        }
    }
}

/// The number of the step at which the procedure is finished.
pub open spec fn finished_step() -> int {
    25
}

/// The number of the step at which the procedure has failed.
pub open spec fn failed_step() -> int {
    26
}

/// The directory into which the release archive is unpacked.
pub open spec fn bin_out_dir() -> Seq<char> {
    "./dist/choco/tools/"@
}

/// Where the package description is written.
pub open spec fn nuspec_path() -> Seq<char> {
    "dist/choco/pacaptr.nuspec"@
}

/// Where the verification notice is written.
pub open spec fn verif_path() -> Seq<char> {
    "dist/choco/tools/VERIFICATION.txt"@
}

/// Where the template of the verification notice lies.
pub open spec fn verif_temp_path() -> Seq<char> {
    "dist/choco/tools/VERIFICATION.template.txt"@
}

/// Whether the task of step `step` hands a text back.
pub open spec fn hands_back_text(step: int) -> bool {
    step == 0 || step == 8 || step == 12 || step == 13 || step == 14 || step == 19
}

/// The verification notice of a release.
pub open spec fn notice(
    template: Seq<char>,
    repository: Seq<char>,
    release_uri: Seq<char>,
    checksums: Seq<char>,
) -> Seq<char> {
    filled(
        filled(filled(template, "repository"@, repository), "release_uri"@, release_uri),
        "checksums"@,
        checksums,
    )
}

impl ProcedureView {
    /// The procedure before anything was done.
    pub open spec fn initial(
        homepage: Seq<char>,
        archive: Seq<char>,
        artifact: Seq<char>,
    ) -> ProcedureView {
        ProcedureView {
            step: 0,
            homepage,
            archive,
            artifact,
            ver: Seq::empty(),
            release_uri: Seq::empty(),
            template: Seq::empty(),
            sha1: Seq::empty(),
            pending: Seq::empty(),
            fault: Seq::empty(),
        }
    }

    /// This procedure, failed for `reason`.
    pub open spec fn failed(self, reason: Seq<char>) -> ProcedureView {
        ProcedureView { step: failed_step(), fault: reason, ..self }
    }

    /// This procedure at its next task.
    pub open spec fn moved_on(self) -> ProcedureView {
        ProcedureView { step: self.step + 1, ..self }
    }

    /// The path of the binary whose checksums are taken.
    pub open spec fn bin_path(self) -> Seq<char> {
        bin_out_dir() + self.artifact
    }

    /// The task that is under way.
    pub open spec fn task(self) -> TaskView {
        if self.step == 0 {
            TaskView::ReadTag
        } else if self.step == 1 {
            TaskView::Say(":: Downloading release binary..."@)
        } else if self.step == 2 {
            TaskView::Run(
                InvocationView::fresh(
                    "powershell"@,
                    seq!["iwr"@, self.release_uri, "-OutFile"@, "./release.tar.gz"@],
                ),
            )
        } else if self.step == 3 {
            TaskView::Say(":: Extracting release binary..."@)
        } else if self.step == 4 {
            TaskView::Run(
                InvocationView::fresh(
                    "tar"@,
                    seq!["xvf"@, "./release.tar.gz"@, "-C"@, bin_out_dir()],
                ),
            )
        } else if self.step == 5 {
            TaskView::Say(":: Adding license"@)
        } else if self.step == 6 {
            TaskView::Run(
                InvocationView::fresh("cp"@, seq!["LICENSE"@, "dist/choco/tools/LICENSE.txt"@]),
            )
        } else if self.step == 7 {
            TaskView::Say(":: Generating Nuspec from template..."@)
        } else if self.step == 8 {
            TaskView::ReadFile { path: "dist/choco/pacaptr.template.nuspec"@ }
        } else if self.step == 9 {
            TaskView::WriteFile { path: nuspec_path(), contents: self.pending }
        } else if self.step == 10 {
            TaskView::Run(InvocationView::fresh("cat"@, seq![nuspec_path()]))
        } else if self.step == 11 {
            TaskView::Say(":: Generating `VERIFICATION.txt`..."@)
        } else if self.step == 12 {
            TaskView::ReadFile { path: verif_temp_path() }
        } else if self.step == 13 {
            TaskView::Capture(
                InvocationView::fresh(
                    "openssl"@,
                    seq!["dgst"@, "-r"@, "-"@ + "sha1"@, self.bin_path()],
                ),
            )
        } else if self.step == 14 {
            TaskView::Capture(
                InvocationView::fresh(
                    "openssl"@,
                    seq!["dgst"@, "-r"@, "-"@ + "sha256"@, self.bin_path()],
                ),
            )
        } else if self.step == 15 {
            TaskView::WriteFile { path: verif_path(), contents: self.pending }
        } else if self.step == 16 {
            TaskView::Run(InvocationView::fresh("cat"@, seq![verif_path()]))
        } else if self.step == 17 {
            TaskView::Run(InvocationView::fresh("rm"@, seq![verif_temp_path()]))
        } else if self.step == 18 {
            TaskView::Say(":: Setting choco API key..."@)
        } else if self.step == 19 {
            TaskView::ReadEnv { name: "CHOCO_API_KEY"@ }
        } else if self.step == 20 {
            TaskView::Run(
                InvocationView::fresh(
                    "choco"@,
                    seq![
                        "apikey"@,
                        "--key"@,
                        self.pending,
                        "--source"@,
                        "https://push.chocolatey.org"@,
                        "--verbose"@,
                    ],
                ),
            )
        } else if self.step == 21 {
            TaskView::Say(":: Packing up NuGet package..."@)
        } else if self.step == 22 {
            TaskView::Run(
                InvocationView::fresh("choco"@, seq!["pack"@, nuspec_path(), "--verbose"@]),
            )
        } else if self.step == 23 {
            TaskView::Say(":: Pushing to choco repository..."@)
        } else if self.step == 24 {
            TaskView::Run(
                InvocationView::fresh(
                    "choco"@,
                    seq![
                        "push"@,
                        BumpChoco::package_file(self.ver),
                        "--source"@,
                        "https://push.chocolatey.org"@,
                        "--verbose"@,
                    ],
                ),
            )
        } else if self.step == finished_step() {
            TaskView::Finished
        } else {
            TaskView::Failed(ErrorView::OtherError(self.fault))
        }
    }

    /// What the procedure learns from the text that its task handed back.
    /// Where the version cannot be made, the procedure fails for `fault`,
    /// the description of what is wrong with the pattern of the version.
    pub open spec fn learnt(self, text: Seq<char>, fault: Seq<char>) -> ProcedureView {
        if self.step == 0 {
            if regex_compiles(take_pattern()) {
                ProcedureView {
                    ver: regex_replaced(take_pattern(), without_v(text), ""@),
                    release_uri: release_address(self.homepage, text, self.archive),
                    ..self.moved_on()
                }
            } else {
                self.failed(fault)
            }
        } else if self.step == 8 {
            ProcedureView {
                pending: filled(text, "version"@, attr_escaped(self.ver)),
                ..self.moved_on()
            }
        } else if self.step == 12 {
            ProcedureView { template: text, ..self.moved_on() }
        } else if self.step == 13 {
            match first_token(text) {
                Some(sum) => ProcedureView { sha1: sum, ..self.moved_on() },
                None => self.failed("Failed to fetch checksum from `openssl dgst`"@),
            }
        } else if self.step == 14 {
            match first_token(text) {
                Some(sum) => ProcedureView {
                    pending: notice(
                        self.template,
                        self.homepage,
                        self.release_uri,
                        checksum_line("sha1"@, self.sha1) + checksum_line("sha256"@, sum),
                    ),
                    ..self.moved_on()
                },
                None => self.failed("Failed to fetch checksum from `openssl dgst`"@),
            }
        } else {
            ProcedureView { pending: text, ..self.moved_on() }
        }
    }

    /// The procedure after the caller's report of the task under way.  A
    /// failed task fails the procedure, and so does a report of the wrong
    /// kind; a procedure that is finished or has failed stays as it is.
    /// `fault` is the description of what is wrong with the pattern of the
    /// version, which is read only where that pattern does not compile.
    pub open spec fn absorbed(self, feedback: FeedbackView, fault: Seq<char>) -> ProcedureView {
        if self.step < 0 || self.step >= finished_step() {
            self
        } else {
            match feedback {
                FeedbackView::Failed(reason) => self.failed(reason),
                FeedbackView::Done => if hands_back_text(self.step) {
                    self.failed("The task was to hand back a text"@)
                } else {
                    self.moved_on()
                },
                FeedbackView::Text(text) => if hands_back_text(self.step) {
                    self.learnt(text, fault)
                } else {
                    self.failed("The task was to hand back no text"@)
                },
            }
        }
    }
}

impl Procedure {
    /// The number of the task under way is one of the procedure's own.
    #[verifier::type_invariant]
    spec fn in_range(self) -> bool {
        self.step <= 26
    }

    fn fail(self, reason: String) -> (out: Procedure)
        ensures
            out@ == self@.failed(reason@),
    {
        let mut out = self;
        out.step = 26;
        out.fault = reason;
        out
    }

    fn move_on(self) -> (out: Procedure)
        requires
            self@.step < 25,
        ensures
            out@ == self@.moved_on(),
    {
        let mut out = self;
        out.step = out.step + 1;
        out
    }

    /// The procedure for `release`, before anything was done.  The
    /// procedure is meant to run under Windows and is begun nowhere else.
    pub fn begin(release: Release, os: HostOs) -> (out: Procedure)
        requires
            BumpChoco::runs_on(os),
        ensures
            out@ == ProcedureView::initial(
                release.homepage@,
                release.archive@,
                release.artifact@,
            ),
            0 <= out@.step <= failed_step(),
    {
        Procedure {
            step: 0,
            homepage: release.homepage,
            archive: release.archive,
            artifact: release.artifact,
            ver: String::new(),
            release_uri: String::new(),
            template: String::new(),
            sha1: String::new(),
            pending: String::new(),
            fault: String::new(),
        }
    }

    /// The task that is under way.
    pub fn task(&self) -> (out: Task)
        ensures
            out@ == self@.task(),
            0 <= self@.step <= failed_step(),
    {
        proof {
            use_type_invariant(self);
        }
        let mut bin_path = String::new();
        bin_path.append("./dist/choco/tools/");
        bin_path.append(self.artifact.as_str());
        match self.step {
            0 => Task::ReadTag,
            1 => Task::Say(word(":: Downloading release binary...")),
            2 => Task::Run(BumpChoco::download(self.release_uri.as_str())),
            3 => Task::Say(word(":: Extracting release binary...")),
            4 => Task::Run(BumpChoco::extract("./dist/choco/tools/")),
            5 => Task::Say(word(":: Adding license")),
            6 => Task::Run(BumpChoco::add_license()),
            7 => Task::Say(word(":: Generating Nuspec from template...")),
            8 => Task::ReadFile { path: word("dist/choco/pacaptr.template.nuspec") },
            9 => Task::WriteFile {
                path: word("dist/choco/pacaptr.nuspec"),
                contents: self.pending.clone(),
            },
            10 => Task::Run(BumpChoco::show("dist/choco/pacaptr.nuspec")),
            11 => Task::Say(word(":: Generating `VERIFICATION.txt`...")),
            12 => Task::ReadFile { path: word("dist/choco/tools/VERIFICATION.template.txt") },
            13 => Task::Capture(BumpChoco::digest("sha1", bin_path.as_str())),
            14 => Task::Capture(BumpChoco::digest("sha256", bin_path.as_str())),
            15 => Task::WriteFile {
                path: word("dist/choco/tools/VERIFICATION.txt"),
                contents: self.pending.clone(),
            },
            16 => Task::Run(BumpChoco::show("dist/choco/tools/VERIFICATION.txt")),
            17 => Task::Run(BumpChoco::remove("dist/choco/tools/VERIFICATION.template.txt")),
            18 => Task::Say(word(":: Setting choco API key...")),
            19 => Task::ReadEnv { name: word("CHOCO_API_KEY") },
            20 => Task::Run(BumpChoco::set_api_key(self.pending.as_str())),
            21 => Task::Say(word(":: Packing up NuGet package...")),
            22 => Task::Run(BumpChoco::pack("dist/choco/pacaptr.nuspec")),
            23 => Task::Say(word(":: Pushing to choco repository...")),
            24 => Task::Run(BumpChoco::push(self.ver.as_str())),
            25 => Task::Finished,
            _ => Task::Failed(Error::OtherError(self.fault.clone())),
        }
    }

    fn learn(self, text: String) -> (out: Procedure)
        requires
            hands_back_text(self@.step),
        ensures
            out@ == self@.learnt(text@, out@.fault),
    {
        let mut out = self;
        match out.step {
            0 => {
                match BumpChoco::version(text.as_str()) {
                    Ok(ver) => {
                        out.release_uri = BumpChoco::release_uri(
                            out.homepage.as_str(),
                            text.as_str(),
                            out.archive.as_str(),
                        );
                        out.ver = ver;
                        out.move_on()
                    },
                    Err(e) => out.fail(e.message()),
                }
            },
            8 => {
                out.pending = BumpChoco::nuspec(text.as_str(), out.ver.as_str());
                out.move_on()
            },
            12 => {
                out.template = text;
                out.move_on()
            },
            13 => match BumpChoco::checksum(text.as_str()) {
                Ok(sum) => {
                    out.sha1 = sum;
                    out.move_on()
                },
                Err(_) => out.fail(word("Failed to fetch checksum from `openssl dgst`")),
            },
            14 => match BumpChoco::checksum(text.as_str()) {
                Ok(sum) => {
                    let sums = BumpChoco::checksums(out.sha1.as_str(), sum.as_str());
                    out.pending = BumpChoco::verification(
                        out.template.as_str(),
                        out.homepage.as_str(),
                        out.release_uri.as_str(),
                        sums.as_str(),
                    );
                    out.move_on()
                },
                Err(_) => out.fail(word("Failed to fetch checksum from `openssl dgst`")),
            },
            _ => {
                out.pending = text;
                out.move_on()
            },
        }
    }

    /// Takes in the caller's report of the task under way and moves on to
    /// the next task.
    pub fn proceed(self, feedback: Feedback) -> (out: Procedure)
        ensures
            out@ == self@.absorbed(feedback@, out@.fault),
            0 <= self@.step <= failed_step(),
            0 <= out@.step <= failed_step(),
    {
        proof {
            use_type_invariant(&self);
        }
        if self.step >= 25 {
            return self;
        }
        let step = self.step;
        let text_due = step == 0 || step == 8 || step == 12 || step == 13 || step == 14 || step
            == 19;
        match feedback {
            Feedback::Failed(reason) => self.fail(reason),
            Feedback::Done => if text_due {
                self.fail(word("The task was to hand back a text"))
            } else {
                self.move_on()
            },
            Feedback::Text(text) => if text_due {
                self.learn(text)
            } else {
                self.fail(word("The task was to hand back no text"))
            },
        }
    }
}

/// `tag` without the `v` that it starts with, if it starts with one.
fn strip_v(tag: &str) -> (out: &str)
    ensures
        out@ == without_v(tag@),
{
    let len = tag.unicode_len();
    if len > 0 && tag.get_char(0) == 'v' {
        proof {
            assert(tag@.subrange(1, len as int) =~= tag@.skip(1));
        }
        tag.substring_char(1, len)
    } else {
        tag
    }
}

/// The procedure goes through its tasks in their order: a report of the
/// kind that the task calls for, short of a failure, leads to the next task
/// or, where a text cannot be made use of, to failure, and to nothing else.
pub proof fn lemma_tasks_in_order(p: ProcedureView, feedback: FeedbackView, fault: Seq<char>)
    requires
        0 <= p.step < finished_step(),
    ensures
        p.absorbed(feedback, fault).step == p.step + 1 || p.absorbed(feedback, fault).step
            == failed_step(),
        feedback is Failed ==> p.absorbed(feedback, fault).step == failed_step(),
        p.absorbed(feedback, fault).homepage == p.homepage,
        p.absorbed(feedback, fault).archive == p.archive,
        p.absorbed(feedback, fault).artifact == p.artifact,
{
}

/// A procedure that is finished or has failed stays so, whatever is
/// reported to it.
pub proof fn lemma_end_is_final(p: ProcedureView, feedback: FeedbackView, fault: Seq<char>)
    requires
        p.step >= finished_step(),
    ensures
        p.absorbed(feedback, fault) == p,
{
}

} // verus!

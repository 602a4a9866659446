//! The compatibility table: which operations each package manager module
//! defines, read off the text of the modules.

use vstd::prelude::*;
use crate::error::{Error, ErrorView};
use crate::pm::{all_ops, Op};
use crate::patterns::{pattern_matches, regex_compiles, regex_is_match};
use crate::text::{
    clone_words, comes_before, lemma_precedes_irreflexive, lemma_precedes_transitive, precedes,
    same_text, word, words,
};

verus! {

/// The regular expression that finds the definition of the function
/// `name`: `fn`, white space, the name, and an opening bracket.
pub open spec fn method_pattern(name: Seq<char>) -> Seq<char> {
    "fn\\s+"@ + name + "\\s*\\("@
}

/// The regular expression that finds the definition of operation `i`.
pub open spec fn op_pattern(i: int) -> Seq<char> {
    method_pattern(all_ops()[i].label())
}

/// Whether the regular expressions of all operations compile.
pub open spec fn patterns_compile() -> bool {
    forall|i: int| 0 <= i < all_ops().len() ==> regex_compiles(#[trigger] op_pattern(i))
}

/// For each operation, whether `contents` defines a function of its name.
pub open spec fn found_in(contents: Seq<char>) -> Seq<bool> {
    Seq::new(all_ops().len(), |i: int| regex_is_match(op_pattern(i), contents))
}

/// Checks the implementation status of the operations in the text of one
/// module: for each operation, in the order of `Op::all`, whether the text
/// defines a function of its name.
pub fn check_methods(contents: &str) -> (out: Result<Vec<bool>, Error>)
    ensures
        out is Ok <==> patterns_compile(),
        out matches Ok(found) ==> found@ == found_in(contents@),
        out matches Err(e) ==> e@ is OtherError,
{
    let ops = Op::all();
    let mut found: Vec<bool> = Vec::new();
    let mut i: usize = 0;
    while i < ops.len()
        invariant
            i <= ops.len(),
            ops@ == all_ops(),
            found@ == found_in(contents@).take(i as int),
            forall|k: int| 0 <= k < i ==> regex_compiles(#[trigger] op_pattern(k)),
        decreases ops.len() - i,
    {
        let mut pattern = String::new();
        pattern.append("fn\\s+");
        pattern.append(ops[i].name());
        pattern.append("\\s*\\(");
        assert(pattern@ == op_pattern(i as int));
        match pattern_matches(pattern.as_str(), contents) {
            Ok(hit) => {
                found.push(hit);
                proof {
                    assert(found@ == found_in(contents@).take(i + 1));
                }
            },
            Err(fault) => {
                return Err(Error::OtherError(fault));
            },
        }
        i += 1;
    }
    Ok(found)
}

/// One row of the table.
#[derive(Debug)]
pub struct CompatRow {
    pub fields: Vec<String>,
}

/// The names of all operations, in the order of `all_ops`.
pub open spec fn op_labels() -> Seq<Seq<char>> {
    Seq::new(all_ops().len(), |i: int| all_ops()[i].label())
}

/// The head of the table: `Module`, then the name of each operation.
pub open spec fn header_row() -> Seq<Seq<char>> {
    seq!["Module"@] + op_labels()
}

/// The mark of an operation in a row: a star where it is defined.
pub open spec fn mark(found: bool) -> Seq<char> {
    if found {
        "*"@
    } else {
        ""@
    }
}

/// What the table says of one module.
pub struct EntryView {
    pub file: Seq<char>,
    pub found: Seq<bool>,
}

/// The row of one module: its file name, then a mark for each operation.
pub open spec fn row_of(entry: EntryView) -> Seq<Seq<char>> {
    seq![entry.file] + Seq::new(entry.found.len(), |i: int| mark(entry.found[i]))
}

impl CompatRow {
    /// The cells of this row.
    pub fn fields(&self) -> (out: Vec<String>)
        ensures
            words(out@) == words(self.fields@),
    {
        clone_words(&self.fields)
    }

    /// The cells of the head of the table.
    pub fn headers() -> (out: Vec<String>)
        ensures
            words(out@) == header_row(),
    {
        let ops = Op::all();
        let mut out: Vec<String> = Vec::new();
        out.push(word("Module"));
        let mut i: usize = 0;
        while i < ops.len()
            invariant
                i <= ops.len(),
                ops@ == all_ops(),
                words(out@) == seq!["Module"@] + op_labels().take(i as int),
            decreases ops.len() - i,
        {
            let ghost before = words(out@);
            out.push(word(ops[i].name()));
            proof {
                assert(words(out@) =~= before.push(all_ops()[i as int].label()));
                assert(op_labels().take(i + 1) =~= op_labels().take(i as int).push(
                    all_ops()[i as int].label(),
                ));
            }
            i += 1;
        }
        proof {
            assert(op_labels().take(ops.len() as int) =~= op_labels());
        }
        out
    }

    /// The row of the module `file`, in which `found` says for each
    /// operation whether it is defined.
    pub fn of_module(file: &str, found: &Vec<bool>) -> (out: CompatRow)
        ensures
            words(out.fields@) == row_of(EntryView { file: file@, found: found@ }),
    {
        let ghost entry = EntryView { file: file@, found: found@ };
        let mut fields: Vec<String> = Vec::new();
        fields.push(word(file));
        let mut i: usize = 0;
        while i < found.len()
            invariant
                i <= found.len(),
                entry == (EntryView { file: file@, found: found@ }),
                words(fields@) == row_of(entry).take(i + 1),
            decreases found.len() - i,
        {
            let ghost before = words(fields@);
            let cell = if found[i] {
                "*"
            } else {
                ""
            };
            fields.push(word(cell));
            proof {
                assert(words(fields@) =~= before.push(mark(found@[i as int])));
                assert(row_of(entry).take(i + 2) =~= row_of(entry).take(i + 1).push(
                    mark(found@[i as int]),
                ));
            }
            i += 1;
        }
        proof {
            assert(row_of(entry).take(found.len() + 1) =~= row_of(entry));
        }
        CompatRow { fields }
    }
}

/// The text of one module of package manager definitions.
#[derive(Debug)]
pub struct ModuleSource {
    /// The name of the file, such as `conda.rs`.
    pub file: String,
    /// What the file holds.
    pub contents: String,
}

/// What the table records of one module.
#[derive(Debug)]
pub struct Entry {
    pub file: String,
    pub found: Vec<bool>,
}

impl View for Entry {
    type V = EntryView;

    open spec fn view(&self) -> EntryView {
        EntryView { file: self.file@, found: self.found@ }
    }
}

/// What a list of entries stands for.
pub open spec fn entries(list: Seq<Entry>) -> Seq<EntryView> {
    Seq::new(list.len(), |i: int| list[i]@)
}

/// Whether the file `name` is left out of the table: the module that only
/// ties the others together, and the one of the unknown package manager.
pub open spec fn excluded(name: Seq<char>) -> bool {
    name == "mod.rs"@ || name == "unknown.rs"@
}

/// Whether the file `name` is left out of the table, so that it need not
/// even be read.
pub fn is_excluded(name: &str) -> (out: bool)
    ensures
        out == excluded(name@),
{
    same_text(name, "mod.rs") || same_text(name, "unknown.rs")
}

/// The entries of `list` whose file names come before `name`, in the order
/// of `list`.
pub open spec fn below(list: Seq<EntryView>, name: Seq<char>) -> Seq<EntryView>
    decreases list.len(),
{
    if list.len() == 0 {
        Seq::empty()
    } else if precedes(list.last().file, name) {
        below(list.drop_last(), name).push(list.last())
    } else {
        below(list.drop_last(), name)
    }
}

/// The entries of `list` whose file names come after `name`, in the order
/// of `list`.
pub open spec fn above(list: Seq<EntryView>, name: Seq<char>) -> Seq<EntryView>
    decreases list.len(),
{
    if list.len() == 0 {
        Seq::empty()
    } else if precedes(name, list.last().file) {
        above(list.drop_last(), name).push(list.last())
    } else {
        above(list.drop_last(), name)
    }
}

/// `list` with `entry` put at its place in the order of the file names.  An
/// entry of the same file name gives way to the new one.
pub open spec fn inserted(list: Seq<EntryView>, entry: EntryView) -> Seq<EntryView> {
    below(list, entry.file).push(entry) + above(list, entry.file)
}

/// Puts `entry` at its place among `list`.
pub fn insert_entry(list: Vec<Entry>, entry: Entry) -> (out: Vec<Entry>)
    ensures
        entries(out@) == inserted(entries(list@), entry@),
{
    let ghost all = entries(list@);
    let mut lower: Vec<Entry> = Vec::new();
    let mut upper: Vec<Entry> = Vec::new();
    let mut i: usize = 0;
    while i < list.len()
        invariant
            i <= list.len(),
            all == entries(list@),
            entries(lower@) == below(all.take(i as int), entry@.file),
            entries(upper@) == above(all.take(i as int), entry@.file),
        decreases list.len() - i,
    {
        let ghost seen = all.take(i + 1);
        proof {
            assert(seen.drop_last() == all.take(i as int));
            assert(seen.last() == list@[i as int]@);
        }
        if comes_before(list[i].file.as_str(), entry.file.as_str()) {
            let ghost before = entries(lower@);
            let copy = Entry { file: list[i].file.clone(), found: list[i].found.clone() };
            lower.push(copy);
            proof {
                assert(entries(lower@) =~= before.push(list@[i as int]@));
            }
        }
        if comes_before(entry.file.as_str(), list[i].file.as_str()) {
            let ghost before = entries(upper@);
            let copy = Entry { file: list[i].file.clone(), found: list[i].found.clone() };
            upper.push(copy);
            proof {
                assert(entries(upper@) =~= before.push(list@[i as int]@));
            }
        }
        i += 1;
    }
    proof {
        assert(all.take(list.len() as int) == all);
    }
    let ghost low = entries(lower@);
    let ghost high = entries(upper@);
    let ghost e = entry@;
    lower.push(entry);
    proof {
        assert(entries(lower@) =~= low.push(e));
    }
    let ghost mid = entries(lower@);
    lower.append(&mut upper);
    proof {
        assert(entries(lower@) =~= mid + high);
    }
    lower
}

/// What a [`ModuleSource`] stands for.
pub struct ModuleView {
    pub file: Seq<char>,
    pub contents: Seq<char>,
}

impl View for ModuleSource {
    type V = ModuleView;

    open spec fn view(&self) -> ModuleView {
        ModuleView { file: self.file@, contents: self.contents@ }
    }
}

/// What a list of modules stands for.
pub open spec fn sources(list: Seq<ModuleSource>) -> Seq<ModuleView> {
    Seq::new(list.len(), |i: int| list[i]@)
}

/// The entries of the first `n` of `modules`, in the order of their file
/// names: the excluded files are passed over.
pub open spec fn indexed(modules: Seq<ModuleView>, n: int) -> Seq<EntryView>
    decreases n,
{
    if n <= 0 {
        Seq::empty()
    } else {
        let earlier = indexed(modules, n - 1);
        let module = modules[n - 1];
        if excluded(module.file) {
            earlier
        } else {
            inserted(earlier, EntryView { file: module.file, found: found_in(module.contents) })
        }
    }
}

/// Whether each of the first `n` of `modules` is excluded.
pub open spec fn all_excluded(modules: Seq<ModuleView>, n: int) -> bool {
    forall|k: int| 0 <= k < n ==> excluded(#[trigger] modules[k].file)
}

/// The rows of the table: the head, then one row for each entry.
pub open spec fn sheet(list: Seq<EntryView>) -> Seq<Seq<Seq<char>>> {
    seq![header_row()] + Seq::new(list.len(), |i: int| row_of(list[i]))
}

/// The text that the `tabled` crate lays `rows` out as, in its style
/// without borders: the first row is the head.
pub uninterp spec fn table_text(rows: Seq<Seq<Seq<char>>>) -> Seq<char>;

/// What a list of rows stands for.
pub open spec fn cells(rows: Seq<Vec<String>>) -> Seq<Seq<Seq<char>>> {
    Seq::new(rows.len(), |i: int| words(rows[i]@))
}

/// `Builder::from`, `Builder::build`, `Table::with` and the `Display` of
/// `Table` of the `tabled` crate, with `Style::blank`: the table of `rows`
/// as text.
#[verifier::external_body]
fn render_table(rows: Vec<Vec<String>>) -> (out: String)
    ensures
        out@ == table_text(cells(rows@)),
{
    tabled::builder::Builder::from(rows).build().with(tabled::settings::Style::blank()).to_string()
}

/// The table as a block of literal text in a document: between two fences
/// of three backticks, each on a line of its own.
pub open spec fn fenced(table: Seq<char>) -> Seq<char> {
    "```\n"@ + table + "\n```\n"@
}

/// The text of the compatibility table of `modules`.
pub open spec fn table_of(modules: Seq<ModuleView>) -> Seq<char> {
    fenced(table_text(sheet(indexed(modules, modules.len() as int))))
}

/// The entries of `modules`, in the order of their file names.
pub fn index_modules(modules: &Vec<ModuleSource>) -> (out: Result<Vec<Entry>, Error>)
    ensures
        out is Ok <==> patterns_compile() || all_excluded(
            sources(modules@),
            modules@.len() as int,
        ),
        out matches Ok(list) ==> entries(list@) == indexed(
            sources(modules@),
            modules@.len() as int,
        ),
        out matches Err(e) ==> e@ is OtherError,
{
    let ghost all = sources(modules@);
    let mut list: Vec<Entry> = Vec::new();
    let mut i: usize = 0;
    proof {
        assert(entries(list@) =~= indexed(all, 0));
    }
    while i < modules.len()
        invariant
            i <= modules.len(),
            all == sources(modules@),
            entries(list@) == indexed(all, i as int),
            patterns_compile() || all_excluded(all, i as int),
        decreases modules.len() - i,
    {
        let module = &modules[i];
        assert(all[i as int] == module@);
        if !is_excluded(module.file.as_str()) {
            match check_methods(module.contents.as_str()) {
                Ok(found) => {
                    let entry = Entry { file: module.file.clone(), found };
                    list = insert_entry(list, entry);
                },
                Err(e) => {
                    proof {
                        assert(!excluded(all[i as int].file));
                    }
                    return Err(e);
                },
            }
        }
        i += 1;
    }
    Ok(list)
}

/// The compatibility table of `modules` as a block of literal text.
pub fn make_table(modules: &Vec<ModuleSource>) -> (out: Result<String, Error>)
    ensures
        out is Ok <==> patterns_compile() || all_excluded(
            sources(modules@),
            modules@.len() as int,
        ),
        out matches Ok(text) ==> text@ == table_of(sources(modules@)),
        out matches Err(e) ==> e@ is OtherError,
{
    let list = match index_modules(modules) {
        Ok(list) => list,
        Err(e) => {
            return Err(e);
        },
    };
    let ghost shown = entries(list@);
    let mut rows: Vec<Vec<String>> = Vec::new();
    rows.push(CompatRow::headers());
    proof {
        assert(cells(rows@) =~= sheet(shown).take(1));
    }
    let mut i: usize = 0;
    while i < list.len()
        invariant
            i <= list.len(),
            shown == entries(list@),
            cells(rows@) == sheet(shown).take(i + 1),
        decreases list.len() - i,
    {
        let ghost before = cells(rows@);
        let row = CompatRow::of_module(list[i].file.as_str(), &list[i].found);
        assert(words(row.fields@) == row_of(shown[i as int]));
        rows.push(row.fields);
        proof {
            assert(cells(rows@) =~= before.push(row_of(shown[i as int])));
            assert(sheet(shown).take(i + 2) =~= sheet(shown).take(i + 1).push(
                row_of(shown[i as int]),
            ));
        }
        i += 1;
    }
    proof {
        assert(sheet(shown).take(list.len() + 1) =~= sheet(shown));
    }
    let table = render_table(rows);
    let mut text = String::new();
    text.append("```\n");
    text.append(table.as_str());
    text.append("\n```\n");
    Ok(text)
}

/// `TokenStream` of the `proc_macro2` crate: it is handed on as it comes.
#[verifier::external_type_specification]
#[verifier::external_body]
pub struct ExTokenStream(proc_macro2::TokenStream);

/// The `FromStr` of `TokenStream` of the `proc_macro2` crate, reached
/// through `str::parse`: the tokens of `text`, or the crate's description of
/// why it has none.  Which of the two comes back is the crate's answer, and
/// nothing is claimed of it.
#[verifier::external_body]
fn lex(text: &str) -> (out: Result<proc_macro2::TokenStream, String>) {
    match text.parse::<proc_macro2::TokenStream>() {
        Ok(tokens) => Ok(tokens),
        Err(e) => Err(e.to_string()),
    }
}

/// What the library makes of the lexer's answer: the tokens are handed on
/// as they came, and a fault becomes an error of the library with the
/// lexer's own description.
pub fn lexed(answer: Result<proc_macro2::TokenStream, String>) -> (out: Result<
    proc_macro2::TokenStream,
    Error,
>)
    ensures
        match answer {
            Ok(tokens) => out == Ok::<proc_macro2::TokenStream, Error>(tokens),
            Err(fault) => out matches Err(e) && e@ == ErrorView::OtherError(fault@),
        },
{
    match answer {
        Ok(tokens) => Ok(tokens),
        Err(fault) => Err(Error::OtherError(fault)),
    }
}

/// `table` written as a raw string literal.
pub open spec fn raw_literal(table: Seq<char>) -> Seq<char> {
    "r#\""@ + table + "\"#"@
}

/// `table` written as a raw string literal.
pub fn docstring(table: &str) -> (out: String)
    ensures
        out@ == raw_literal(table@),
{
    let mut out = String::new();
    out.append("r#\"");
    out.append(table);
    out.append("\"#");
    out
}

/// The compatibility table of `modules` as the tokens of one string
/// literal, for use as the text of a documentation attribute.  The table is
/// written as a raw string literal and handed to the lexer; where no table
/// can be made, the lexer is not asked.
pub fn compat_table_impl(modules: &Vec<ModuleSource>) -> (out: Result<
    proc_macro2::TokenStream,
    Error,
>)
    ensures
        out is Ok ==> patterns_compile() || all_excluded(
            sources(modules@),
            modules@.len() as int,
        ),
        !(patterns_compile() || all_excluded(sources(modules@), modules@.len() as int))
            ==> out is Err,
        out matches Err(e) ==> e@ is OtherError,
{
    let table = match make_table(modules) {
        Ok(table) => table,
        Err(e) => {
            return Err(e);
        },
    };
    let literal = docstring(table.as_str());
    lexed(lex(literal.as_str()))
}

/// Whether the file names of `list` ascend strictly in the order of the
/// dictionary.
pub open spec fn ascending(list: Seq<EntryView>) -> bool {
    forall|i: int, j: int|
        0 <= i < j < list.len() ==> precedes(#[trigger] list[i].file, #[trigger] list[j].file)
}

/// Whether `entry` is one of `list`.
pub open spec fn member(list: Seq<EntryView>, entry: EntryView) -> bool {
    exists|k: int| 0 <= k < list.len() && list[k] == entry
}

proof fn lemma_below_ascending(list: Seq<EntryView>, name: Seq<char>)
    requires
        ascending(list),
    ensures
        ascending(below(list, name)),
        forall|k: int|
            0 <= k < below(list, name).len() ==> member(list, #[trigger] below(list, name)[k])
                && precedes(below(list, name)[k].file, name),
    decreases list.len(),
{
    if list.len() > 0 {
        let front = list.drop_last();
        assert(ascending(front)) by {
            assert forall|i: int, j: int| 0 <= i < j < front.len() implies precedes(
                #[trigger] front[i].file,
                #[trigger] front[j].file,
            ) by {
                assert(front[i] == list[i] && front[j] == list[j]);
            }
        }
        lemma_below_ascending(front, name);
        let sub = below(front, name);
        let out = below(list, name);
        assert forall|k: int| 0 <= k < out.len() implies member(list, #[trigger] out[k])
            && precedes(out[k].file, name) by {
            if k < sub.len() {
                assert(out[k] == sub[k]);
                let w = choose|w: int| 0 <= w < front.len() && front[w] == sub[k];
                assert(list[w] == out[k]);
            } else {
                assert(out[k] == list.last());
                assert(list[list.len() - 1] == out[k]);
            }
        }
        assert forall|i: int, j: int| 0 <= i < j < out.len() implies precedes(
            #[trigger] out[i].file,
            #[trigger] out[j].file,
        ) by {
            if j < sub.len() {
                assert(out[i] == sub[i] && out[j] == sub[j]);
            } else {
                assert(out[j] == list.last());
                assert(out[i] == sub[i]);
                let w = choose|w: int| 0 <= w < front.len() && front[w] == sub[i];
                assert(list[w] == out[i]);
                assert(list[list.len() - 1] == out[j]);
            }
        }
    }
}

proof fn lemma_above_ascending(list: Seq<EntryView>, name: Seq<char>)
    requires
        ascending(list),
    ensures
        ascending(above(list, name)),
        forall|k: int|
            0 <= k < above(list, name).len() ==> member(list, #[trigger] above(list, name)[k])
                && precedes(name, above(list, name)[k].file),
    decreases list.len(),
{
    if list.len() > 0 {
        let front = list.drop_last();
        assert(ascending(front)) by {
            assert forall|i: int, j: int| 0 <= i < j < front.len() implies precedes(
                #[trigger] front[i].file,
                #[trigger] front[j].file,
            ) by {
                assert(front[i] == list[i] && front[j] == list[j]);
            }
        }
        lemma_above_ascending(front, name);
        let sub = above(front, name);
        let out = above(list, name);
        assert forall|k: int| 0 <= k < out.len() implies member(list, #[trigger] out[k])
            && precedes(name, out[k].file) by {
            if k < sub.len() {
                assert(out[k] == sub[k]);
                let w = choose|w: int| 0 <= w < front.len() && front[w] == sub[k];
                assert(list[w] == out[k]);
            } else {
                assert(out[k] == list.last());
                assert(list[list.len() - 1] == out[k]);
            }
        }
        assert forall|i: int, j: int| 0 <= i < j < out.len() implies precedes(
            #[trigger] out[i].file,
            #[trigger] out[j].file,
        ) by {
            if j < sub.len() {
                assert(out[i] == sub[i] && out[j] == sub[j]);
            } else {
                assert(out[j] == list.last());
                assert(out[i] == sub[i]);
                let w = choose|w: int| 0 <= w < front.len() && front[w] == sub[i];
                assert(list[w] == out[i]);
                assert(list[list.len() - 1] == out[j]);
            }
        }
    }
}

/// Putting an entry at its place keeps the file names ascending, and
/// the new entry is among the result.
pub proof fn lemma_inserted_ascending(list: Seq<EntryView>, entry: EntryView)
    requires
        ascending(list),
    ensures
        ascending(inserted(list, entry)),
        member(inserted(list, entry), entry),
{
    lemma_below_ascending(list, entry.file);
    lemma_above_ascending(list, entry.file);
    let low = below(list, entry.file);
    let high = above(list, entry.file);
    let out = inserted(list, entry);
    assert(out[low.len() as int] == entry);
    assert forall|i: int, j: int| 0 <= i < j < out.len() implies precedes(
        #[trigger] out[i].file,
        #[trigger] out[j].file,
    ) by {
        if j < low.len() {
            assert(out[i] == low[i] && out[j] == low[j]);
        } else if j == low.len() {
            assert(out[i] == low[i]);
        } else if i == low.len() {
            assert(out[j] == high[j - low.len() - 1]);
        } else if i < low.len() {
            assert(out[i] == low[i]);
            assert(out[j] == high[j - low.len() - 1]);
            lemma_precedes_transitive(out[i].file, entry.file, out[j].file);
        } else {
            assert(out[i] == high[i - low.len() - 1]);
            assert(out[j] == high[j - low.len() - 1]);
        }
    }
}

/// Where the file names ascend, no two entries are of the same file.
pub proof fn lemma_ascending_distinct(list: Seq<EntryView>)
    requires
        ascending(list),
    ensures
        forall|i: int, j: int|
            0 <= i < j < list.len() ==> (#[trigger] list[i]).file != (#[trigger] list[j]).file,
{
    assert forall|i: int, j: int| 0 <= i < j < list.len() implies (#[trigger] list[i]).file != (
    #[trigger] list[j]).file by {
        assert(precedes(list[i].file, list[j].file));
        lemma_precedes_irreflexive(list[i].file);
    }
}

/// The rows of the table stand in the order of their file names, and no
/// row is of an excluded file.
pub proof fn lemma_indexed_ascending(modules: Seq<ModuleView>, n: int)
    ensures
        ascending(indexed(modules, n)),
        forall|k: int|
            0 <= k < indexed(modules, n).len() ==> !excluded(
                #[trigger] indexed(modules, n)[k].file,
            ),
    decreases n,
{
    if n > 0 {
        lemma_indexed_ascending(modules, n - 1);
        let earlier = indexed(modules, n - 1);
        let module = modules[n - 1];
        if !excluded(module.file) {
            let entry = EntryView { file: module.file, found: found_in(module.contents) };
            lemma_inserted_ascending(earlier, entry);
            lemma_below_ascending(earlier, entry.file);
            lemma_above_ascending(earlier, entry.file);
            let low = below(earlier, entry.file);
            let high = above(earlier, entry.file);
            let out = inserted(earlier, entry);
            assert forall|k: int| 0 <= k < out.len() implies !excluded(#[trigger] out[k].file) by {
                if k < low.len() {
                    assert(out[k] == low[k]);
                    let w = choose|w: int| 0 <= w < earlier.len() && earlier[w] == low[k];
                    assert(!excluded(earlier[w].file));
                } else if k == low.len() {
                    assert(out[k] == entry);
                } else {
                    assert(out[k] == high[k - low.len() - 1]);
                    let w = choose|w: int|
                        0 <= w < earlier.len() && earlier[w] == high[k - low.len() - 1];
                    assert(!excluded(earlier[w].file));
                }
            }
        }
    }
}

} // verus!

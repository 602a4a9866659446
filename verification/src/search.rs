//! Searching captured output: a record of the output is kept when every
//! keyword matches it, so several keywords narrow a search down.

use vstd::prelude::*;
use vstd::utf8::{decode_utf8, valid_utf8};
use crate::error::Error;
use crate::lines::{decode, lines_of, split_lines};
use crate::patterns::{pattern_matches, regex_compiles, regex_is_match};
use crate::text::words;

verus! {

/// Whether every one of `patterns` compiles.
pub open spec fn all_compile(patterns: Seq<Seq<char>>) -> bool {
    forall|j: int| 0 <= j < patterns.len() ==> regex_compiles(#[trigger] patterns[j])
}

/// For each line, which of the keywords match it.
pub open spec fn hit_table(lines: Seq<Seq<char>>, keywords: Seq<Seq<char>>) -> Seq<Seq<bool>> {
    Seq::new(
        lines.len(),
        |i: int| Seq::new(keywords.len(), |j: int| regex_is_match(keywords[j], lines[i])),
    )
}

/// Whether keyword `j` matches line `i`, as far as the table says: what the
/// table lacks counts as no match.
pub open spec fn hit(hits: Seq<Seq<bool>>, i: int, j: int) -> bool {
    0 <= i < hits.len() && 0 <= j < hits[i].len() && hits[i][j]
}

/// Whether keyword `j` matches one of the lines from `start` up to `end`.
pub open spec fn keyword_found(hits: Seq<Seq<bool>>, j: int, start: int, end: int) -> bool {
    exists|i: int| start <= i < end && hit(hits, i, j)
}

/// Whether the record of the lines from `start` up to `end` is kept: every
/// keyword matches one of its lines.
pub open spec fn record_kept(hits: Seq<Seq<bool>>, keywords: int, start: int, end: int) -> bool {
    forall|j: int| 0 <= j < keywords ==> keyword_found(hits, j, start, end)
}

/// The number of lines in a record: `window`, and one where it is zero.
pub open spec fn span_of(window: int) -> int {
    if window <= 0 {
        1
    } else {
        window
    }
}

/// Where the record that starts at `start` ends.
pub open spec fn record_end(total: int, start: int, window: int) -> int {
    if start + span_of(window) < total {
        start + span_of(window)
    } else {
        total
    }
}

/// The lines of the records that are kept, from the record that starts at
/// `start` on.  The lines are cut into records of `window` lines each (the
/// last may be shorter); a kept record gives all its lines, in order.
pub open spec fn kept_from(
    lines: Seq<Seq<char>>,
    hits: Seq<Seq<bool>>,
    keywords: int,
    window: int,
    start: int,
) -> Seq<Seq<char>>
    decreases lines.len() - start,
{
    if start < 0 || start >= lines.len() {
        Seq::empty()
    } else {
        let end = record_end(lines.len() as int, start, window);
        let rest = kept_from(lines, hits, keywords, window, end);
        if record_kept(hits, keywords, start, end) {
            lines.subrange(start, end) + rest
        } else {
            rest
        }
    }
}

/// The lines that a search keeps.
pub open spec fn kept(
    lines: Seq<Seq<char>>,
    hits: Seq<Seq<bool>>,
    keywords: int,
    window: int,
) -> Seq<Seq<char>> {
    kept_from(lines, hits, keywords, window, 0)
}

/// Whether keyword `j` matches one of the lines from `start` up to `end`.
fn keyword_in_record(hits: &Vec<Vec<bool>>, j: usize, start: usize, end: usize) -> (out: bool)
    ensures
        out == keyword_found(table(hits@), j as int, start as int, end as int),
{
    let ghost t = table(hits@);
    let mut i = start;
    while i < end
        invariant
            start <= i,
            t == table(hits@),
            forall|k: int| start <= k < i ==> !hit(t, k, j as int),
        decreases end - i,
    {
        if i < hits.len() && j < hits[i].len() && hits[i][j] {
            proof {
                assert(hit(t, i as int, j as int));
            }
            return true;
        }
        i += 1;
    }
    false
}

/// The table that the vectors hold.
pub open spec fn table(hits: Seq<Vec<bool>>) -> Seq<Seq<bool>> {
    Seq::new(hits.len(), |i: int| hits[i]@)
}

/// Whether every keyword matches one of the lines from `start` up to `end`.
fn record_is_kept(hits: &Vec<Vec<bool>>, keywords: usize, start: usize, end: usize) -> (out: bool)
    ensures
        out == record_kept(table(hits@), keywords as int, start as int, end as int),
{
    let mut j: usize = 0;
    while j < keywords
        invariant
            j <= keywords,
            forall|k: int|
                0 <= k < j ==> keyword_found(table(hits@), k, start as int, end as int),
        decreases keywords - j,
    {
        if !keyword_in_record(hits, j, start, end) {
            return false;
        }
        j += 1;
    }
    true
}

/// Selects the lines of the records in which every keyword was found.
/// `hits[i][j]` says whether keyword `j` matches line `i`.
pub fn select_records(
    lines: &Vec<String>,
    hits: &Vec<Vec<bool>>,
    keywords: usize,
    window: usize,
) -> (out: Vec<String>)
    ensures
        words(out@) == kept(words(lines@), table(hits@), keywords as int, window as int),
{
    let span: usize = if window == 0 {
        1
    } else {
        window
    };
    let total = lines.len();
    let ghost all = words(lines@);
    let ghost t = table(hits@);
    let mut out: Vec<String> = Vec::new();
    let mut start: usize = 0;
    while start < total
        invariant
            start <= total,
            total == lines.len(),
            all == words(lines@),
            t == table(hits@),
            span == span_of(window as int),
            words(out@) + kept_from(all, t, keywords as int, window as int, start as int) == kept(
                all,
                t,
                keywords as int,
                window as int,
            ),
        decreases total - start,
    {
        let end: usize = if span < total - start {
            start + span
        } else {
            total
        };
        assert(end == record_end(total as int, start as int, window as int));
        let ghost before = words(out@);
        if record_is_kept(hits, keywords, start, end) {
            let mut i = start;
            while i < end
                invariant
                    start <= i <= end <= total,
                    total == lines.len(),
                    all == words(lines@),
                    words(out@) == before + all.subrange(start as int, i as int),
                decreases end - i,
            {
                let ghost sofar = words(out@);
                out.push(lines[i].clone());
                proof {
                    assert(words(out@) == sofar.push(lines@[i as int]@));
                    assert(all.subrange(start as int, i + 1) == all.subrange(
                        start as int,
                        i as int,
                    ).push(all[i as int]));
                }
                i += 1;
            }
        }
        start = end;
    }
    out
}

/// For each line, which of the keywords match it; or the fault of the
/// first keyword that is no regular expression.
pub fn match_table(lines: &Vec<String>, keywords: &Vec<String>) -> (out: Result<
    Vec<Vec<bool>>,
    Error,
>)
    ensures
        out is Ok <==> all_compile(words(keywords@)),
        out matches Ok(hits) ==> table(hits@) == hit_table(words(lines@), words(keywords@)),
        out matches Err(e) ==> e@ is OtherError,
{
    let ghost ls = words(lines@);
    let ghost ks = words(keywords@);
    let mut j: usize = 0;
    while j < keywords.len()
        invariant
            j <= keywords.len(),
            ks == words(keywords@),
            forall|k: int| 0 <= k < j ==> regex_compiles(#[trigger] ks[k]),
        decreases keywords.len() - j,
    {
        match pattern_matches(keywords[j].as_str(), "") {
            Ok(_) => {},
            Err(fault) => {
                assert(!regex_compiles(ks[j as int]));
                return Err(Error::OtherError(fault));
            },
        }
        j += 1;
    }
    let mut hits: Vec<Vec<bool>> = Vec::new();
    let mut i: usize = 0;
    while i < lines.len()
        invariant
            i <= lines.len(),
            ls == words(lines@),
            ks == words(keywords@),
            all_compile(ks),
            table(hits@) == hit_table(ls, ks).take(i as int),
        decreases lines.len() - i,
    {
        let mut row: Vec<bool> = Vec::new();
        let mut j: usize = 0;
        while j < keywords.len()
            invariant
                j <= keywords.len(),
                i < lines.len(),
                ls == words(lines@),
                ks == words(keywords@),
                all_compile(ks),
                row@ == hit_table(ls, ks)[i as int].take(j as int),
            decreases keywords.len() - j,
        {
            assert(regex_compiles(ks[j as int]));
            let found = match pattern_matches(keywords[j].as_str(), lines[i].as_str()) {
                Ok(found) => found,
                Err(_) => false,
            };
            row.push(found);
            proof {
                assert(row@ == hit_table(ls, ks)[i as int].take(j + 1));
            }
            j += 1;
        }
        let ghost before = table(hits@);
        hits.push(row);
        proof {
            assert(row@ == hit_table(ls, ks)[i as int]);
            assert(table(hits@) == before.push(row@));
            assert(table(hits@) == hit_table(ls, ks).take(i + 1));
        }
        i += 1;
    }
    Ok(hits)
}

/// The lines of `lines` that a search for `keywords` keeps, with records of
/// `window` lines.
pub fn search_lines(lines: &Vec<String>, keywords: &Vec<String>, window: usize) -> (out: Result<
    Vec<String>,
    Error,
>)
    ensures
        out is Ok <==> all_compile(words(keywords@)),
        out matches Ok(found) ==> words(found@) == kept(
            words(lines@),
            hit_table(words(lines@), words(keywords@)),
            keywords@.len() as int,
            window as int,
        ),
        out matches Err(e) ==> e@ is OtherError,
{
    match match_table(lines, keywords) {
        Ok(hits) => Ok(select_records(lines, &hits, keywords.len(), window)),
        Err(e) => Err(e),
    }
}

/// What a search of captured output owes: the kept lines of the text that
/// the bytes encode.
pub open spec fn search_result(stdout: Seq<u8>, keywords: Seq<Seq<char>>, window: int) -> Seq<
    Seq<char>,
> {
    let lines = lines_of(decode_utf8(stdout));
    kept(lines, hit_table(lines, keywords), keywords.len() as int, window)
}

/// Searches the captured standard output of a process.  Output that is no
/// UTF-8 is an error, and so is a keyword that is no regular expression.
pub fn search_output(stdout: &Vec<u8>, keywords: &Vec<String>, window: usize) -> (out: Result<
    Vec<String>,
    Error,
>)
    ensures
        out is Ok <==> valid_utf8(stdout@) && all_compile(words(keywords@)),
        out matches Ok(found) ==> words(found@) == search_result(
            stdout@,
            words(keywords@),
            window as int,
        ),
        out matches Err(e) ==> if valid_utf8(stdout@) {
            e@ is OtherError
        } else {
            e@ is FromUtf8Error
        },
{
    match decode(stdout) {
        Ok(text) => {
            let lines = split_lines(text.as_str());
            search_lines(&lines, keywords, window)
        },
        Err(fault) => Err(Error::FromUtf8Error(fault)),
    }
}

/// Whether every one of the first `keywords` keywords matches line `i`.
pub open spec fn all_hit(hits: Seq<Seq<bool>>, keywords: int, i: int) -> bool {
    forall|j: int| 0 <= j < keywords ==> hit(hits, i, j)
}

/// The lines from position `start` on that every keyword matches.
pub open spec fn matching_from(
    lines: Seq<Seq<char>>,
    hits: Seq<Seq<bool>>,
    keywords: int,
    start: int,
) -> Seq<Seq<char>>
    decreases lines.len() - start,
{
    if start < 0 || start >= lines.len() {
        Seq::empty()
    } else if all_hit(hits, keywords, start) {
        seq![lines[start]] + matching_from(lines, hits, keywords, start + 1)
    } else {
        matching_from(lines, hits, keywords, start + 1)
    }
}

/// Several keywords narrow a search down: read line by line, the search
/// keeps exactly the lines that every keyword matches, in their order.  A
/// line that one of the keywords does not match is left out, whatever the
/// other keywords say.
pub proof fn lemma_search_is_conjunction(
    lines: Seq<Seq<char>>,
    hits: Seq<Seq<bool>>,
    keywords: int,
    window: int,
    start: int,
)
    requires
        window <= 1,
        0 <= start,
    ensures
        kept_from(lines, hits, keywords, window, start) == matching_from(
            lines,
            hits,
            keywords,
            start,
        ),
    decreases lines.len() - start,
{
    if start < lines.len() {
        let end = record_end(lines.len() as int, start, window);
        assert(end == start + 1);
        lemma_search_is_conjunction(lines, hits, keywords, window, end);
        assert(record_kept(hits, keywords, start, end) == all_hit(hits, keywords, start)) by {
            if record_kept(hits, keywords, start, end) {
                assert forall|j: int| 0 <= j < keywords implies hit(hits, start, j) by {
                    assert(keyword_found(hits, j, start, end));
                }
            }
            if all_hit(hits, keywords, start) {
                assert forall|j: int| 0 <= j < keywords implies keyword_found(
                    hits,
                    j,
                    start,
                    end,
                ) by {
                    assert(hit(hits, start, j));
                }
            }
        }
        assert(lines.subrange(start, end) =~= seq![lines[start]]);
    }
}

} // verus!

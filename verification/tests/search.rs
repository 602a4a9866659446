use pacaptr::engine::Completion;
use pacaptr::error::Error;
use pacaptr::exec::{ExecutionOutcome, ExitStatus};
use pacaptr::lines::{decode, split_lines};
use pacaptr::pm::{findings, Search};
use pacaptr::search::{match_table, search_lines, search_output, select_records};

fn strs(items: &[&str]) -> Vec<String> {
    items.iter().map(|s| s.to_string()).collect()
}

#[test]
fn search_keeps_a_line_with_every_keyword() {
    let out = b"alpha foo bar\nbeta foo\ngamma bar\ndelta bar and foo\n".to_vec();
    let found = search_output(&out, &strs(&["foo", "bar"]), 1).unwrap();
    assert_eq!(found, strs(&["alpha foo bar", "delta bar and foo"]));
}

#[test]
fn search_keeps_a_block_with_every_keyword() {
    let out = b"name: alpha\n  has foo and bar\nname: beta\n  has only foo\nname: bar\n  and foo\n"
        .to_vec();
    let found = search_output(&out, &strs(&["foo", "bar"]), 2).unwrap();
    assert_eq!(found, strs(&["name: alpha", "  has foo and bar", "name: bar", "  and foo"]));
}

#[test]
fn search_is_case_sensitive_and_takes_regular_expressions() {
    let lines = strs(&["Foo 1.0", "foo 2.0", "food 3", "barfoo"]);
    assert_eq!(search_lines(&lines, &strs(&["foo"]), 1).unwrap(), strs(&["foo 2.0", "food 3", "barfoo"]));
    assert_eq!(search_lines(&lines, &strs(&["^foo\\b"]), 1).unwrap(), strs(&["foo 2.0"]));
    assert_eq!(search_lines(&lines, &strs(&["[0-9]\\.[0-9]"]), 1).unwrap(), strs(&["Foo 1.0", "foo 2.0"]));
}

#[test]
fn search_without_keywords_keeps_everything() {
    let lines = strs(&["a", "b", "c"]);
    assert_eq!(search_lines(&lines, &strs(&[]), 1).unwrap(), lines);
    assert_eq!(search_lines(&lines, &strs(&[]), 2).unwrap(), lines);
}

#[test]
fn search_of_nothing_finds_nothing() {
    assert_eq!(search_lines(&strs(&[]), &strs(&["a"]), 1).unwrap(), strs(&[]));
    assert_eq!(search_output(&Vec::new(), &strs(&["a"]), 3).unwrap(), strs(&[]));
}

#[test]
fn a_window_of_zero_counts_as_one() {
    let lines = strs(&["a", "b", "ab"]);
    assert_eq!(search_lines(&lines, &strs(&["a", "b"]), 0).unwrap(), strs(&["ab"]));
    assert_eq!(search_lines(&lines, &strs(&["a", "b"]), 1).unwrap(), strs(&["ab"]));
}

#[test]
fn the_last_record_may_be_short() {
    let lines = strs(&["a", "b", "c", "ab"]);
    assert_eq!(search_lines(&lines, &strs(&["a", "b"]), 3).unwrap(), strs(&["a", "b", "c", "ab"]));
    assert_eq!(search_lines(&lines, &strs(&["a", "c"]), 3).unwrap(), strs(&["a", "b", "c"]));
    assert_eq!(search_lines(&lines, &strs(&["a", "b"]), 2).unwrap(), strs(&["a", "b", "c", "ab"]));
    assert_eq!(search_lines(&lines, &strs(&["a", "c"]), 2).unwrap(), strs(&["c", "ab"]));
    assert_eq!(search_lines(&lines, &strs(&["b", "c"]), 3).unwrap(), strs(&["a", "b", "c"]));
    assert_eq!(
        search_lines(&lines, &strs(&["a"]), usize::MAX).unwrap(),
        strs(&["a", "b", "c", "ab"])
    );
}

#[test]
fn a_keyword_that_is_no_expression_is_an_error() {
    let lines = strs(&["a"]);
    assert!(matches!(search_lines(&lines, &strs(&["a", "("]), 1), Err(Error::OtherError(_))));
    assert!(matches!(search_lines(&strs(&[]), &strs(&["[z-a]"]), 1), Err(Error::OtherError(_))));
    assert!(matches!(match_table(&lines, &strs(&["*"])), Err(Error::OtherError(_))));
}

#[test]
fn output_that_is_no_utf8_is_an_error() {
    let out = vec![b'a', 0xff, b'\n'];
    assert!(matches!(search_output(&out, &strs(&["a"]), 1), Err(Error::FromUtf8Error(_))));
    assert!(decode(&out).is_err());
    assert_eq!(decode(&"héllo ☃".as_bytes().to_vec()).unwrap(), "héllo ☃");
}

#[test]
fn the_match_table_has_a_row_for_each_line() {
    let table = match_table(&strs(&["ab", "b", ""]), &strs(&["a", "b"])).unwrap();
    assert_eq!(table, vec![vec![true, true], vec![false, true], vec![false, false]]);
}

#[test]
fn records_are_selected_by_the_table_alone() {
    let lines = strs(&["l0", "l1", "l2", "l3", "l4"]);
    let hits = vec![
        vec![true, false],
        vec![false, true],
        vec![true, true],
        vec![false, false],
        vec![true, true],
    ];
    assert_eq!(select_records(&lines, &hits, 2, 1), strs(&["l2", "l4"]));
    assert_eq!(select_records(&lines, &hits, 2, 2), strs(&["l0", "l1", "l2", "l3", "l4"]));
    assert_eq!(select_records(&lines, &hits, 1, 1), strs(&["l0", "l2", "l4"]));
    assert_eq!(select_records(&lines, &hits, 0, 1), lines);
    assert_eq!(select_records(&lines, &hits, 3, 1), strs(&[]));
    assert_eq!(select_records(&lines, &Vec::new(), 1, 1), strs(&[]));
    assert_eq!(select_records(&lines, &hits[..2].to_vec(), 2, 5), lines);
}

#[test]
fn lines_end_at_line_feeds() {
    assert_eq!(split_lines(""), strs(&[]));
    assert_eq!(split_lines("a"), strs(&["a"]));
    assert_eq!(split_lines("a\n"), strs(&["a"]));
    assert_eq!(split_lines("a\nb"), strs(&["a", "b"]));
    assert_eq!(split_lines("a\n\nb\n"), strs(&["a", "", "b"]));
    assert_eq!(split_lines("\n"), strs(&[""]));
    assert_eq!(split_lines("\n\n"), strs(&["", ""]));
    assert_eq!(split_lines("a\r\nb\r\n"), strs(&["a", "b"]));
    assert_eq!(split_lines("a\rb\n"), strs(&["a\rb"]));
    assert_eq!(split_lines("a\r"), strs(&["a\r"]));
    assert_eq!(split_lines("a\r\r\nb"), strs(&["a\r", "b"]));
    assert_eq!(split_lines("\r\n"), strs(&[""]));
    assert_eq!(split_lines("é☃\nü"), strs(&["é☃", "ü"]));
}

#[test]
fn lines_agree_with_the_standard_library() {
    for text in ["", "a", "a\n", "a\nb", "x\r\ny\r\n", "\n", "one\n\ntwo", "a\rb\n", "tail\r\n\r\n"] {
        let expected: Vec<String> = text.lines().map(|l| l.to_string()).collect();
        assert_eq!(split_lines(text), expected, "lines of {:?}", text);
    }
}

#[test]
fn findings_come_from_a_finished_search_only() {
    let search = Some(Search { keywords: strs(&["py"]), window: 1 });
    let outcome = ExecutionOutcome::new(
        b"numpy 1.0\nscipy 2.0\nrequests 3.0\n".to_vec(),
        Vec::new(),
        ExitStatus::Code(0),
    );
    let finished = Completion::Finished(outcome);
    assert_eq!(findings(&search, &finished).unwrap(), strs(&["numpy 1.0", "scipy 2.0"]));
    assert_eq!(findings(&None, &finished).unwrap(), strs(&[]));
    assert_eq!(findings(&search, &Completion::Declined).unwrap(), strs(&[]));
    let shown = Completion::Displayed { line: "conda list".to_string() };
    assert_eq!(findings(&search, &shown).unwrap(), strs(&[]));
}

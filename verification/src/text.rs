//! Words: the handling of strings that the rest of the library shares.

use vstd::prelude::*;

verus! {

/// The words of a vector of strings, each as its sequence of characters.
pub open spec fn words(v: Seq<String>) -> Seq<Seq<char>> {
    Seq::new(v.len(), |i: int| v[i]@)
}

/// The words of `parts` written one after another, with `sep` between any two.
pub open spec fn joined(parts: Seq<Seq<char>>, sep: Seq<char>) -> Seq<char>
    decreases parts.len(),
{
    if parts.len() == 0 {
        Seq::empty()
    } else if parts.len() == 1 {
        parts[0]
    } else {
        joined(parts.drop_last(), sep) + sep + parts.last()
    }
}

/// Joins the words of `parts` with `sep` between any two of them.
pub fn join_words(parts: &Vec<String>, sep: &str) -> (out: String)
    ensures
        out@ == joined(words(parts@), sep@),
{
    let mut out = String::new();
    let mut i: usize = 0;
    while i < parts.len()
        invariant
            i <= parts.len(),
            out@ == joined(words(parts@).take(i as int), sep@),
        decreases parts.len() - i,
    {
        let ghost before = words(parts@).take(i as int);
        let ghost after = words(parts@).take(i + 1);
        proof {
            assert(after.drop_last() == before);
            assert(after.last() == parts@[i as int]@);
        }
        if i > 0 {
            out.append(sep);
        }
        out.append(parts[i].as_str());
        i += 1;
    }
    proof {
        assert(words(parts@).take(parts.len() as int) == words(parts@));
    }
    out
}

/// `String::push` of the standard library: the string with `c` as its new
/// last character.
#[verifier::external_body]
pub(crate) fn push_char(text: &mut String, c: char)
    ensures
        final(text)@ == old(text)@.push(c),
{
    text.push(c)
}

/// A string of its own that holds `text`.
pub fn word(text: &str) -> (out: String)
    ensures
        out@ == text@,
{
    String::from_str(text)
}

/// Whether `a` and `b` are the same text.
pub fn same_text(a: &str, b: &str) -> (out: bool)
    ensures
        out == (a@ == b@),
{
    String::from_str(a) == String::from_str(b)
}

/// The list of the one word `a`.
pub fn words1(a: &str) -> (out: Vec<String>)
    ensures
        words(out@) == seq![a@],
{
    let mut out: Vec<String> = Vec::new();
    out.push(word(a));
    proof {
        assert(words(out@) =~= seq![a@]);
    }
    out
}

/// The list of the two words `a` and `b`.
pub fn words2(a: &str, b: &str) -> (out: Vec<String>)
    ensures
        words(out@) == seq![a@, b@],
{
    let mut out: Vec<String> = Vec::new();
    out.push(word(a));
    out.push(word(b));
    proof {
        assert(words(out@) =~= seq![a@, b@]);
    }
    out
}

/// What a list of string slices stands for.
pub open spec fn slices(list: Seq<&str>) -> Seq<Seq<char>> {
    Seq::new(list.len(), |i: int| list[i]@)
}

/// The words of `list` as strings of their own.
pub fn owned_words(list: Vec<&str>) -> (out: Vec<String>)
    ensures
        words(out@) == slices(list@),
{
    let mut out: Vec<String> = Vec::new();
    let mut i: usize = 0;
    while i < list.len()
        invariant
            i <= list.len(),
            words(out@) == slices(list@).take(i as int),
        decreases list.len() - i,
    {
        let ghost before = words(out@);
        out.push(word(list[i]));
        proof {
            assert(words(out@) =~= before.push(list@[i as int]@));
            assert(slices(list@).take(i + 1) =~= slices(list@).take(i as int).push(
                list@[i as int]@,
            ));
        }
        i += 1;
    }
    proof {
        assert(slices(list@).take(list.len() as int) =~= slices(list@));
    }
    out
}

/// A copy of `list`, word for word.
pub fn clone_words(list: &Vec<String>) -> (out: Vec<String>)
    ensures
        words(out@) == words(list@),
{
    let mut out: Vec<String> = Vec::new();
    extend_words(&mut out, list);
    out
}

/// Appends a copy of every word of `more` to `list`, in order.
pub fn extend_words(list: &mut Vec<String>, more: &Vec<String>)
    ensures
        words(final(list)@) == words(old(list)@) + words(more@),
{
    let mut i: usize = 0;
    while i < more.len()
        invariant
            i <= more.len(),
            words(list@) == words(old(list)@) + words(more@).take(i as int),
        decreases more.len() - i,
    {
        let ghost before = words(list@);
        list.push(more[i].clone());
        proof {
            assert(words(list@) == before.push(more@[i as int]@));
            assert(words(more@).take(i + 1) == words(more@).take(i as int).push(more@[i as int]@));
        }
        i += 1;
    }
    proof {
        assert(words(more@).take(more.len() as int) == words(more@));
    }
}

/// The character that writes the decimal digit `d`.
pub open spec fn digit_char(d: int) -> char {
    if d == 0 {
        '0'
    } else if d == 1 {
        '1'
    } else if d == 2 {
        '2'
    } else if d == 3 {
        '3'
    } else if d == 4 {
        '4'
    } else if d == 5 {
        '5'
    } else if d == 6 {
        '6'
    } else if d == 7 {
        '7'
    } else if d == 8 {
        '8'
    } else {
        '9'
    }
}

/// The decimal digits of `n`, most significant first, without leading zeros.
pub open spec fn digits(n: nat) -> Seq<char>
    decreases n,
{
    if n < 10 {
        seq![digit_char(n as int)]
    } else {
        digits(n / 10).push(digit_char((n % 10) as int))
    }
}

/// `n` written in decimal, with a leading minus sign when it is negative.
pub open spec fn decimal(n: int) -> Seq<char> {
    if n < 0 {
        seq!['-'] + digits((-n) as nat)
    } else {
        digits(n as nat)
    }
}

fn push_digit(out: &mut String, d: u64)
    requires
        d < 10,
    ensures
        final(out)@ == old(out)@.push(digit_char(d as int)),
{
    proof {
        reveal_strlit("0");
        reveal_strlit("1");
        reveal_strlit("2");
        reveal_strlit("3");
        reveal_strlit("4");
        reveal_strlit("5");
        reveal_strlit("6");
        reveal_strlit("7");
        reveal_strlit("8");
        reveal_strlit("9");
    }
    let text = if d == 0 {
        "0"
    } else if d == 1 {
        "1"
    } else if d == 2 {
        "2"
    } else if d == 3 {
        "3"
    } else if d == 4 {
        "4"
    } else if d == 5 {
        "5"
    } else if d == 6 {
        "6"
    } else if d == 7 {
        "7"
    } else if d == 8 {
        "8"
    } else {
        "9"
    };
    assert(text@ == seq![digit_char(d as int)]);
    out.append(text);
    assert(out@ == old(out)@.push(digit_char(d as int)));
}

fn push_digits(out: &mut String, n: u64)
    ensures
        final(out)@ == old(out)@ + digits(n as nat),
    decreases n,
{
    if n >= 10 {
        push_digits(out, n / 10);
    }
    push_digit(out, n % 10);
    assert(out@ == old(out)@ + digits(n as nat));
}

/// Appends `n` in decimal to `out`.
pub fn push_decimal(out: &mut String, n: i32)
    ensures
        final(out)@ == old(out)@ + decimal(n as int),
{
    if n < 0 {
        proof {
            reveal_strlit("-");
        }
        out.append("-");
        let magnitude: u64 = (-(n as i64)) as u64;
        push_digits(out, magnitude);
        assert(out@ == old(out)@ + decimal(n as int));
    } else {
        push_digits(out, n as u64);
    }
}

/// The characters of `text`.
pub fn chars_of(text: &str) -> (out: Vec<char>)
    ensures
        out@ == text@,
{
    let mut out: Vec<char> = Vec::new();
    for c in it: text.chars()
        invariant
            it.seq() == text@,
            out@ == text@.take(it.index() as int),
    {
        out.push(c);
    }
    out
}

/// Whether `a` comes before `b` in the order of the dictionary, from
/// position `from` on, where both agree before it: the first character in
/// which they differ decides, by its code point, and a text comes before
/// each of its extensions.
pub open spec fn precedes_from(a: Seq<char>, b: Seq<char>, from: int) -> bool
    decreases a.len() - from,
{
    if from < 0 || from >= b.len() {
        false
    } else if from >= a.len() {
        true
    } else if a[from] != b[from] {
        (a[from] as u32) < (b[from] as u32)
    } else {
        precedes_from(a, b, from + 1)
    }
}

/// Whether `a` comes before `b` in the order of the dictionary.
pub open spec fn precedes(a: Seq<char>, b: Seq<char>) -> bool {
    precedes_from(a, b, 0)
}

/// Whether `a` comes before `b` in the order of the dictionary.
pub fn comes_before(a: &str, b: &str) -> (out: bool)
    ensures
        out == precedes(a@, b@),
{
    let x = chars_of(a);
    let y = chars_of(b);
    let mut i: usize = 0;
    while i < x.len() && i < y.len()
        invariant
            i <= x.len(),
            i <= y.len(),
            x@ == a@,
            y@ == b@,
            precedes_from(x@, y@, i as int) == precedes(x@, y@),
        decreases x.len() - i,
    {
        let cx: char = x[i];
        let cy: char = y[i];
        if cx != cy {
            return (cx as u32) < (cy as u32);
        }
        i += 1;
    }
    i < y.len()
}

/// The order of the dictionary is transitive.
pub proof fn lemma_precedes_transitive(a: Seq<char>, b: Seq<char>, c: Seq<char>)
    requires
        precedes(a, b),
        precedes(b, c),
    ensures
        precedes(a, c),
{
    lemma_precedes_from_transitive(a, b, c, 0);
}

proof fn lemma_precedes_from_transitive(a: Seq<char>, b: Seq<char>, c: Seq<char>, from: int)
    requires
        0 <= from,
        precedes_from(a, b, from),
        precedes_from(b, c, from),
    ensures
        precedes_from(a, c, from),
    decreases a.len() - from,
{
    if from < a.len() && a[from] == b[from] && b[from] == c[from] {
        lemma_precedes_from_transitive(a, b, c, from + 1);
    }
}

/// No text comes before itself in the order of the dictionary.
pub proof fn lemma_precedes_irreflexive(a: Seq<char>)
    ensures
        !precedes(a, a),
{
    lemma_precedes_from_irreflexive(a, 0);
}

proof fn lemma_precedes_from_irreflexive(a: Seq<char>, from: int)
    requires
        0 <= from,
    ensures
        !precedes_from(a, a, from),
    decreases a.len() - from,
{
    if from < a.len() {
        lemma_precedes_from_irreflexive(a, from + 1);
    }
}

} // verus!

//! Templates: text with placeholders in curly brackets.

use vstd::prelude::*;
use crate::text::{chars_of, push_char};

verus! {

/// The placeholder of `name`: the name in curly brackets.
pub open spec fn placeholder(name: Seq<char>) -> Seq<char> {
    seq!['{'] + name + seq!['}']
}

/// Whether `key` stands in `text` at position `at`.
pub open spec fn occurs_at(text: Seq<char>, key: Seq<char>, at: int) -> bool {
    0 <= at && at + key.len() <= text.len() && text.subrange(at, at + key.len()) == key
}

/// `text` from position `from` on, with `value` in place of each `key`.
/// The text is read from left to right, and what has been replaced is not
/// read again.
pub open spec fn replaced_from(text: Seq<char>, key: Seq<char>, value: Seq<char>, from: int) -> Seq<
    char,
>
    decreases text.len() - from,
{
    if from < 0 || from >= text.len() {
        Seq::empty()
    } else if key.len() > 0 && occurs_at(text, key, from) {
        value + replaced_from(text, key, value, from + key.len())
    } else {
        seq![text[from]] + replaced_from(text, key, value, from + 1)
    }
}

/// `template` with `value` in place of each placeholder of `name`.
pub open spec fn filled(template: Seq<char>, name: Seq<char>, value: Seq<char>) -> Seq<char> {
    replaced_from(template, placeholder(name), value, 0)
}

/// Whether `key` stands in `text` at position `at`.
fn stands_at(text: &Vec<char>, key: &Vec<char>, at: usize) -> (out: bool)
    requires
        at <= text.len(),
    ensures
        out == occurs_at(text@, key@, at as int),
{
    if key.len() > text.len() - at {
        return false;
    }
    let mut j: usize = 0;
    while j < key.len()
        invariant
            j <= key.len(),
            at + key.len() <= text.len(),
            forall|k: int| 0 <= k < j ==> text@[at + k] == key@[k],
        decreases key.len() - j,
    {
        if text[at + j] != key[j] {
            proof {
                assert(text@.subrange(at as int, at + key.len())[j as int] == text@[at + j]);
            }
            return false;
        }
        j += 1;
    }
    proof {
        assert(text@.subrange(at as int, at + key.len()) =~= key@);
    }
    true
}

/// Fills in a template: every `{name}` in it gives way to `value`.
pub fn fill(template: &str, name: &str, value: &str) -> (out: String)
    ensures
        out@ == filled(template@, name@, value@),
{
    let text = chars_of(template);
    let mut key: Vec<char> = Vec::new();
    key.push('{');
    let mut inner = chars_of(name);
    key.append(&mut inner);
    key.push('}');
    proof {
        assert(key@ =~= placeholder(name@));
    }
    let mut out = String::new();
    let mut i: usize = 0;
    while i < text.len()
        invariant
            i <= text.len(),
            text@ == template@,
            key@ == placeholder(name@),
            out@ + replaced_from(text@, key@, value@, i as int) == filled(
                template@,
                name@,
                value@,
            ),
        decreases text.len() - i,
    {
        let ghost before = out@;
        let ghost rest = replaced_from(text@, key@, value@, i as int);
        if stands_at(&text, &key, i) {
            out.append(value);
            proof {
                let tail = replaced_from(text@, key@, value@, i + key.len());
                assert(rest == value@ + tail);
                assert(out@ + tail =~= before + rest);
            }
            i += key.len();
        } else {
            push_char(&mut out, text[i]);
            proof {
                let tail = replaced_from(text@, key@, value@, i + 1);
                assert(rest == seq![text@[i as int]] + tail);
                assert(out@ + tail =~= before + rest);
            }
            i += 1;
        }
    }
    proof {
        assert(replaced_from(text@, key@, value@, i as int) =~= Seq::<char>::empty());
    }
    out
}

} // verus!

//! The invocation builder: a program, its base arguments, and the keywords
//! and flags that the user supplied, kept in the order they were given.

use vstd::prelude::*;
use crate::text::{clone_words, extend_words, join_words, joined, word, words};

verus! {

/// What an [`Invocation`] stands for: four ordered pieces of a command line.
pub struct InvocationView {
    pub program: Seq<char>,
    pub base_args: Seq<Seq<char>>,
    pub keywords: Seq<Seq<char>>,
    pub flags: Seq<Seq<char>>,
}

impl InvocationView {
    /// The invocation of `program` with `base_args` and nothing else.
    pub open spec fn fresh(program: Seq<char>, base_args: Seq<Seq<char>>) -> InvocationView {
        InvocationView { program, base_args, keywords: Seq::empty(), flags: Seq::empty() }
    }

    /// The full argument vector: program, base arguments, keywords, flags.
    pub open spec fn argv(self) -> Seq<Seq<char>> {
        seq![self.program] + self.base_args + self.keywords + self.flags
    }

    /// The command line as it is shown to the user: the argument vector
    /// joined by single spaces.
    pub open spec fn rendered(self) -> Seq<char> {
        joined(self.argv(), seq![' '])
    }

    /// This invocation with `more` appended to its keywords.
    pub open spec fn with_keywords(self, more: Seq<Seq<char>>) -> InvocationView {
        InvocationView { keywords: self.keywords + more, ..self }
    }

    /// This invocation with `more` appended to its flags.
    pub open spec fn with_flags(self, more: Seq<Seq<char>>) -> InvocationView {
        InvocationView { flags: self.flags + more, ..self }
    }

    /// This invocation run through `wrapper`: the wrapper becomes the program,
    /// `lead` its first arguments, and the old program the argument after them.
    pub open spec fn wrapped(self, wrapper: Seq<char>, lead: Seq<Seq<char>>) -> InvocationView {
        InvocationView {
            program: wrapper,
            base_args: lead + seq![self.program] + self.base_args,
            ..self
        }
    }

    /// This invocation with another program in place of its own.
    pub open spec fn with_program(self, program: Seq<char>) -> InvocationView {
        InvocationView { program, ..self }
    }
}

/// A description of a command that has not been run: nothing here touches
/// the operating system.
#[derive(Debug)]
pub struct Invocation {
    program: String,
    base_args: Vec<String>,
    keywords: Vec<String>,
    flags: Vec<String>,
}

impl View for Invocation {
    type V = InvocationView;

    closed spec fn view(&self) -> InvocationView {
        InvocationView {
            program: self.program@,
            base_args: words(self.base_args@),
            keywords: words(self.keywords@),
            flags: words(self.flags@),
        }
    }
}

impl Clone for Invocation {
    fn clone(&self) -> (out: Self)
        ensures
            out@ == self@,
    {
        Invocation {
            program: self.program.clone(),
            base_args: clone_words(&self.base_args),
            keywords: clone_words(&self.keywords),
            flags: clone_words(&self.flags),
        }
    }
}

impl Invocation {
    /// An invocation of `program` with `base_args`, without keywords or flags.
    pub fn new(program: &str, base_args: &Vec<String>) -> (out: Invocation)
        ensures
            out@ == InvocationView::fresh(program@, words(base_args@)),
    {
        let out = Invocation {
            program: word(program),
            base_args: clone_words(base_args),
            keywords: Vec::new(),
            flags: Vec::new(),
        };
        proof {
            assert(out@.keywords =~= Seq::empty());
            assert(out@.flags =~= Seq::empty());
        }
        out
    }

    /// Appends `keywords`, in order, after the keywords already present.
    pub fn with_keywords(self, keywords: &Vec<String>) -> (out: Invocation)
        ensures
            out@ == self@.with_keywords(words(keywords@)),
    {
        let mut out = self;
        extend_words(&mut out.keywords, keywords);
        out
    }

    /// Appends `flags`, in order, after the flags already present.
    pub fn with_flags(self, flags: &Vec<String>) -> (out: Invocation)
        ensures
            out@ == self@.with_flags(words(flags@)),
    {
        let mut out = self;
        extend_words(&mut out.flags, flags);
        out
    }

    /// Hands the invocation to `step` and returns what `step` makes of it.
    pub fn transform<F: FnOnce(Invocation) -> Invocation>(self, step: F) -> (out: Invocation)
        requires
            step.requires((self,)),
        ensures
            step.ensures((self,), out),
    {
        step(self)
    }

    /// Wraps the invocation in `wrapper`, which receives `lead` and then the
    /// whole former command as its arguments.
    pub fn wrapped(self, wrapper: &str, lead: &Vec<String>) -> (out: Invocation)
        ensures
            out@ == self@.wrapped(wrapper@, words(lead@)),
    {
        let mut base_args = clone_words(lead);
        let ghost head = words(base_args@);
        base_args.push(self.program);
        proof {
            assert(words(base_args@) == head + seq![self.program@]);
        }
        extend_words(&mut base_args, &self.base_args);
        Invocation {
            program: word(wrapper),
            base_args,
            keywords: self.keywords,
            flags: self.flags,
        }
    }

    /// Replaces the program and keeps every argument.
    pub fn with_program(self, program: &str) -> (out: Invocation)
        ensures
            out@ == self@.with_program(program@),
    {
        let mut out = self;
        out.program = word(program);
        out
    }

    /// The argument vector that a process would be started with.
    pub fn argv(&self) -> (out: Vec<String>)
        ensures
            words(out@) == self@.argv(),
    {
        let mut out: Vec<String> = Vec::new();
        out.push(self.program.clone());
        proof {
            assert(words(out@) == seq![self.program@]);
        }
        extend_words(&mut out, &self.base_args);
        extend_words(&mut out, &self.keywords);
        extend_words(&mut out, &self.flags);
        out
    }

    /// The command line as one string, its words separated by single spaces.
    pub fn render(&self) -> (out: String)
        ensures
            out@ == self@.rendered(),
    {
        let argv = self.argv();
        proof {
            reveal_strlit(" ");
            assert(" "@ == seq![' ']);
        }
        join_words(&argv, " ")
    }
}

/// Appending no keywords and no flags leaves an invocation as it was: a
/// freshly built one still is its program followed by its base arguments.
pub proof fn lemma_empty_extension(inv: InvocationView)
    ensures
        inv.with_keywords(Seq::empty()).with_flags(Seq::empty()) == inv,
        inv.with_keywords(Seq::empty()).with_flags(Seq::empty()).argv() == inv.argv(),
        inv.keywords.len() == 0 && inv.flags.len() == 0 ==> inv.argv() == seq![inv.program]
            + inv.base_args,
{
    let out = inv.with_keywords(Seq::empty()).with_flags(Seq::empty());
    assert(out.keywords =~= inv.keywords);
    assert(out.flags =~= inv.flags);
    if inv.keywords.len() == 0 && inv.flags.len() == 0 {
        assert(inv.argv() =~= seq![inv.program] + inv.base_args);
    }
}

/// Keywords and flags are appended, never reordered: what was given first
/// comes first in the argument vector, keywords before flags.
pub proof fn lemma_extension_keeps_order(
    inv: InvocationView,
    kws: Seq<Seq<char>>,
    flags: Seq<Seq<char>>,
)
    ensures
        inv.with_keywords(kws).with_flags(flags).argv() == seq![inv.program] + inv.base_args
            + inv.keywords + kws + inv.flags + flags,
        inv.with_flags(flags).with_keywords(kws) == inv.with_keywords(kws).with_flags(flags),
{
    assert(inv.with_keywords(kws).with_flags(flags).argv() =~= seq![inv.program] + inv.base_args
        + inv.keywords + kws + inv.flags + flags);
}

/// Wrapping puts words in front of a command and changes nothing after
/// them: the argument vector of the wrapped command is the wrapper, its
/// leading arguments, and then the whole former argument vector.
pub proof fn lemma_wrapped_argv(inv: InvocationView, wrapper: Seq<char>, lead: Seq<Seq<char>>)
    ensures
        inv.wrapped(wrapper, lead).argv() == seq![wrapper] + lead + inv.argv(),
        inv.wrapped(wrapper, lead).keywords == inv.keywords,
        inv.wrapped(wrapper, lead).flags == inv.flags,
{
    assert(inv.wrapped(wrapper, lead).argv() =~= seq![wrapper] + lead + inv.argv());
}

} // verus!

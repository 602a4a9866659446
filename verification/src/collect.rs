//! What the jobs of one operation have to show is collected and shown in
//! the order in which the jobs were asked for, in whatever order it was
//! handed in.

use vstd::prelude::*;

verus! {

/// The outputs of the jobs of one operation, each kept at the position of
/// its job.
#[derive(Debug)]
pub struct Collector {
    slots: Vec<Option<Vec<u8>>>,
}

/// What a list of slots stands for.
pub open spec fn slots_view(slots: Seq<Option<Vec<u8>>>) -> Seq<Option<Seq<u8>>> {
    Seq::new(
        slots.len(),
        |i: int|
            match slots[i] {
                Some(output) => Some(output@),
                None => None,
            },
    )
}

/// The outputs that the first `n` slots hold, in the order of the slots.
pub open spec fn present(slots: Seq<Option<Seq<u8>>>, n: int) -> Seq<Seq<u8>>
    decreases n,
{
    if n <= 0 || n > slots.len() {
        Seq::empty()
    } else {
        match slots[n - 1] {
            Some(output) => present(slots, n - 1).push(output),
            None => present(slots, n - 1),
        }
    }
}

/// `slots` with `output` at position `index`; `slots` itself where it has
/// no such position.
pub open spec fn stored(slots: Seq<Option<Seq<u8>>>, index: int, output: Seq<u8>) -> Seq<
    Option<Seq<u8>>,
> {
    if 0 <= index < slots.len() {
        slots.update(index, Some(output))
    } else {
        slots
    }
}

/// Whether every slot holds an output.
pub open spec fn all_present(slots: Seq<Option<Seq<u8>>>) -> bool {
    forall|i: int| 0 <= i < slots.len() ==> (#[trigger] slots[i]) is Some
}

impl View for Collector {
    type V = Seq<Option<Seq<u8>>>;

    closed spec fn view(&self) -> Seq<Option<Seq<u8>>> {
        slots_view(self.slots@)
    }
}

impl Collector {
    /// A collector for the outputs of `count` jobs, none of which has
    /// ended yet.
    pub fn new(count: usize) -> (out: Collector)
        ensures
            out@ == Seq::new(count as nat, |i: int| None::<Seq<u8>>),
    {
        let mut slots: Vec<Option<Vec<u8>>> = Vec::new();
        let mut i: usize = 0;
        while i < count
            invariant
                i <= count,
                slots@.len() == i,
                forall|k: int| 0 <= k < i ==> (#[trigger] slots@[k]) is None,
            decreases count - i,
        {
            slots.push(None);
            i += 1;
        }
        proof {
            assert(slots_view(slots@) =~= Seq::new(count as nat, |k: int| None::<Seq<u8>>));
        }
        Collector { slots }
    }

    /// Keeps `output` as the output of job `index`, in place of an earlier
    /// one.  Says whether there is such a job; nothing is kept otherwise.
    pub fn put(&mut self, index: usize, output: Vec<u8>) -> (out: bool)
        ensures
            out == (index < old(self)@.len()),
            final(self)@ == stored(old(self)@, index as int, output@),
    {
        if index < self.slots.len() {
            let ghost before = slots_view(self.slots@);
            self.slots[index] = Some(output);
            proof {
                assert(slots_view(self.slots@) =~= before.update(index as int, Some(output@)));
            }
            true
        } else {
            false
        }
    }

    /// Whether every job has handed in its output.
    pub fn is_complete(&self) -> (out: bool)
        ensures
            out == all_present(self@),
    {
        let mut i: usize = 0;
        while i < self.slots.len()
            invariant
                i <= self.slots.len(),
                forall|k: int| 0 <= k < i ==> (#[trigger] slots_view(self.slots@)[k]) is Some,
            decreases self.slots.len() - i,
        {
            if self.slots[i].is_none() {
                proof {
                    assert(slots_view(self.slots@)[i as int] is None);
                }
                return false;
            }
            i += 1;
        }
        true
    }

    /// The outputs that were handed in, in the order of their jobs.
    pub fn ordered(&self) -> (out: Vec<Vec<u8>>)
        ensures
            Seq::new(out@.len(), |i: int| out@[i]@) == present(self@, self@.len() as int),
    {
        let mut out: Vec<Vec<u8>> = Vec::new();
        let mut i: usize = 0;
        while i < self.slots.len()
            invariant
                i <= self.slots.len(),
                Seq::new(out@.len(), |k: int| out@[k]@) == present(
                    slots_view(self.slots@),
                    i as int,
                ),
            decreases self.slots.len() - i,
        {
            let ghost before = Seq::new(out@.len(), |k: int| out@[k]@);
            match &self.slots[i] {
                Some(output) => {
                    out.push(output.clone());
                    proof {
                        assert(Seq::new(out@.len(), |k: int| out@[k]@) =~= before.push(output@));
                    }
                },
                None => {},
            }
            i += 1;
        }
        out
    }
}

/// The order in which two jobs end does not show: two outputs of
/// different jobs give the same collection whichever is handed in first.
pub proof fn lemma_order_of_arrival(
    slots: Seq<Option<Seq<u8>>>,
    i: int,
    a: Seq<u8>,
    j: int,
    b: Seq<u8>,
)
    requires
        i != j,
    ensures
        stored(stored(slots, i, a), j, b) == stored(stored(slots, j, b), i, a),
        present(stored(stored(slots, i, a), j, b), slots.len() as int) == present(
            stored(stored(slots, j, b), i, a),
            slots.len() as int,
        ),
{
    assert(stored(stored(slots, i, a), j, b) =~= stored(stored(slots, j, b), i, a));
}

/// Once every job has handed in its output, the outputs shown are those of
/// the jobs, one for each job and in the order of the jobs.
pub proof fn lemma_complete_in_order(slots: Seq<Option<Seq<u8>>>, n: int)
    requires
        all_present(slots),
        0 <= n <= slots.len(),
    ensures
        present(slots, n).len() == n,
        forall|k: int| 0 <= k < n ==> slots[k] == Some(#[trigger] present(slots, n)[k]),
    decreases n,
{
    if n > 0 {
        lemma_complete_in_order(slots, n - 1);
        assert(slots[n - 1] is Some);
    }
}

} // verus!

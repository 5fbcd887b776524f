//! Concrete producers: a finite counter, an endless repeater, and the
//! example generator of counting vectors, with its entry point.

use vstd::prelude::*;

use crate::handle::CSharpIteratorOut;
use crate::sequence::Sequence;

verus! {

/// How many values the example generator yields.
pub const EXAMPLE_COUNT: usize = 40;

/// A finite producer that counts upward: yields `start`, `start + 1`, ...,
/// `end - 1`, in order, then exhausts.
pub struct CountUp {
    /// The next value to yield; counts up to `end`.
    pub current: usize,
    /// One past the last value to yield.
    pub end: usize,
}

impl CountUp {
    /// A producer of the values `start`, `start + 1`, ..., `end - 1`. When
    /// `start >= end` it yields nothing.
    pub fn new(start: usize, end: usize) -> (r: CountUp)
        ensures
            start <= end ==> r.remaining() == Some((end - start) as nat),
            start > end ==> r.remaining() == Some(0nat),
            forall|i: nat| r.future(i) == (start + i) as usize,
    {
        CountUp { current: start, end }
    }
}

impl Sequence<usize> for CountUp {
    open spec fn remaining(&self) -> Option<nat> {
        if self.current <= self.end {
            Some((self.end - self.current) as nat)
        } else {
            Some(0nat)
        }
    }

    open spec fn future(&self, i: nat) -> usize {
        (self.current + i) as usize
    }

    fn next(&mut self) -> (r: Option<usize>) {
        if self.current < self.end {
            let v = self.current;
            self.current = self.current + 1;
            Some(v)
        } else {
            None
        }
    }
}

/// An endless producer that yields the same value on every call.
pub struct Repeating {
    /// The value yielded forever.
    pub value: usize,
}

impl Repeating {
    /// A producer that yields `value` on every call and never exhausts.
    pub fn new(value: usize) -> (r: Repeating)
        ensures
            r.remaining() is None,
            forall|i: nat| r.future(i) == value,
    {
        Repeating { value }
    }
}

impl Sequence<usize> for Repeating {
    open spec fn remaining(&self) -> Option<nat> {
        None
    }

    open spec fn future(&self, i: nat) -> usize {
        self.value
    }

    fn next(&mut self) -> (r: Option<usize>) {
        Some(self.value)
    }
}

/// The example producer: the `i`-th value (0-indexed, `i` running from `0`
/// to [`EXAMPLE_COUNT`]` - 1`) is the vector `[0, 1, ..., i - 1]` of `i`
/// ascending integers; after that the producer exhausts.
pub struct CountingVecs {
    /// How many values have been yielded so far; counts up to
    /// [`EXAMPLE_COUNT`].
    pub index: usize,
}

impl CountingVecs {
    /// A fresh example producer, with all its values still to come.
    pub fn new() -> (r: CountingVecs)
        ensures
            r.remaining() == Some(EXAMPLE_COUNT as nat),
            forall|i: nat| i < EXAMPLE_COUNT ==> r.future(i).len() == i,
            forall|i: nat, k: int|
                i < EXAMPLE_COUNT && 0 <= k < i ==> r.future(i)[k] == k,
    {
        CountingVecs { index: 0 }
    }
}

impl Sequence<Vec<usize>> for CountingVecs {
    open spec fn remaining(&self) -> Option<nat> {
        if self.index <= EXAMPLE_COUNT {
            Some((EXAMPLE_COUNT - self.index) as nat)
        } else {
            Some(0nat)
        }
    }

    open spec fn future(&self, i: nat) -> Seq<usize> {
        Seq::new((self.index + i) as nat, |k: int| k as usize)
    }

    fn next(&mut self) -> (r: Option<Vec<usize>>) {
        if self.index < EXAMPLE_COUNT {
            let mut v: Vec<usize> = Vec::new();
            let mut k: usize = 0;
            while k < self.index
                invariant
                    k <= self.index,
                    v@.len() == k,
                    forall|j: int| 0 <= j < k ==> v@[j] == j,
                decreases self.index - k,
            {
                v.push(k);
                k = k + 1;
            }
            proof {
                assert(v@ =~= self.future(0));
            }
            self.index = self.index + 1;
            Some(v)
        } else {
            None
        }
    }
}

/// Example entry point: fully initialises, as its one side effect, the
/// handle record the caller passes in, wrapping a fresh [`CountingVecs`]
/// producer.
pub fn get_iterator(cs: &mut CSharpIteratorOut<Vec<usize>, CountingVecs>)
    ensures
        final(cs).is_live(),
        final(cs).remaining() == Some(EXAMPLE_COUNT as nat),
        forall|i: nat| i < EXAMPLE_COUNT ==> final(cs).future(i).len() == i,
        forall|i: nat, k: int|
            i < EXAMPLE_COUNT && 0 <= k < i ==> final(cs).future(i)[k] == k,
{
    let iterator = CSharpIteratorOut::form(CountingVecs::new());
    *cs = iterator;
}

} // verus!

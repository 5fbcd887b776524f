//! The abstract capability a value producer must offer: yield the next
//! value, or signal exhaustion.

use vstd::prelude::*;

verus! {

/// A producer of values of type `T`, abstracted behind a "next value or
/// exhausted" capability.
///
/// A producer is modelled by the stream of values it has still to yield:
/// `remaining()` tells how many values are to come (`None` for an endless
/// producer), and `future(i)` is the view of the value the `i`-th future
/// call to [`Sequence::next`] will yield. `future(i)` is meaningful for
/// `i < remaining()` when the producer is finite, and for every `i` when it
/// is endless.
pub trait Sequence<T: View>: Sized {
    /// How many values this producer will still yield; `None` means it
    /// never exhausts.
    spec fn remaining(&self) -> Option<nat>;

    /// The view of the value yielded on the `i`-th future call (0-indexed).
    spec fn future(&self, i: nat) -> T::V;

    /// Yield the next value, or signal exhaustion.
    ///
    /// A finite producer yields its `remaining()` values in order, one per
    /// call, then reports `None` on every later call (it stays exhausted).
    /// An endless producer yields a value on every call.
    fn next(&mut self) -> (r: Option<T>)
        ensures
            match old(self).remaining() {
                Some(n) => if n == 0 {
                    &&& r is None
                    &&& final(self).remaining() == Some(0nat)
                } else {
                    &&& r matches Some(v) && v@ == old(self).future(0)
                    &&& final(self).remaining() == Some((n - 1) as nat)
                    &&& forall|i: nat|
                        i < n - 1 ==> final(self).future(i) == old(self).future(i + 1)
                },
                None => {
                    &&& r matches Some(v) && v@ == old(self).future(0)
                    &&& final(self).remaining() is None
                    &&& forall|i: nat| final(self).future(i) == old(self).future(i + 1)
                },
            },
    ;
}

/// Drains a finite producer directly, without any boundary wrapper,
/// collecting every value it yields, in order.
pub fn collect_direct<T: View, S: Sequence<T>>(s: S) -> (out: Vec<T>)
    requires
        s.remaining() is Some,
    ensures
        out@.len() == s.remaining()->Some_0,
        forall|i: int| 0 <= i < out@.len() ==> out@[i]@ == s.future(i as nat),
{
    let ghost n: nat = s.remaining()->Some_0;
    let mut cur = s;
    let mut out: Vec<T> = Vec::new();
    let mut r = cur.next();
    while r.is_some()
        invariant
            out@.len() <= n,
            r is Some ==> {
                &&& out@.len() < n
                &&& cur.remaining() == Some((n - out@.len() - 1) as nat)
                &&& r.unwrap()@ == s.future(out@.len() as nat)
                &&& forall|i: nat|
                    i < n - out@.len() - 1 ==> cur.future(i) == s.future(
                        out@.len() + 1 + i,
                    )
            },
            r is None ==> out@.len() == n,
            forall|j: int| 0 <= j < out@.len() ==> out@[j]@ == s.future(j as nat),
        decreases n - out@.len(),
    {
        let x = r.unwrap();
        out.push(x);
        r = cur.next();
    }
    out
}

} // verus!

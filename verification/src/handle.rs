//! The fixed handle handed across the foreign boundary, and the single
//! shared entry point the host calls to advance it.

use core::marker::PhantomData;
use vstd::prelude::*;

use crate::sequence::Sequence;

verus! {

/// The handle handed out to the foreign host runtime.
///
/// It owns the wrapped producer exclusively, on the heap, from construction
/// until the call to [`iter_impl_ffi`] that observes exhaustion; that call
/// releases the allocation and the handle goes dead. A dead handle must be
/// discarded: calling [`iter_impl_ffi`] on it again is out of contract.
pub struct CSharpIteratorOut<T: View, S: Sequence<T>> {
    /// The heap-allocated producer: `Some` while the handle is live, `None`
    /// once the call that observed exhaustion has released it.
    pointer: Option<Box<S>>,
    _element: PhantomData<T>,
}

impl<T: View, S: Sequence<T>> CSharpIteratorOut<T, S> {
    /// The wrapped producer has not yet been released: no call through this
    /// handle has observed exhaustion.
    pub closed spec fn is_live(&self) -> bool {
        self.pointer is Some
    }

    /// The producer state behind the handle; meaningful only while live.
    pub closed spec fn wrapped(&self) -> S
        recommends
            self.is_live(),
    {
        *self.pointer->Some_0
    }

    /// How many values the handle will still hand out; `None` for an
    /// endless producer. Meaningful only while live.
    pub closed spec fn remaining(&self) -> Option<nat>
        recommends
            self.is_live(),
    {
        self.wrapped().remaining()
    }

    /// The view of the value the `i`-th future call through this handle
    /// will deliver. Meaningful only while live.
    pub closed spec fn future(&self, i: nat) -> T::V
        recommends
            self.is_live(),
    {
        self.wrapped().future(i)
    }

    /// Whether the handle is still live, as an executable check for
    /// callers outside the library that must respect the precondition of
    /// [`iter_impl_ffi`] before calling it.
    pub fn live(&self) -> (b: bool)
        ensures
            b == self.is_live(),
    {
        self.pointer.is_some()
    }

    /// Wraps a producer into a handle, moving it onto the heap.
    ///
    /// The handle delivers exactly the stream the producer would have
    /// yielded on its own: same length, same values, same order.
    pub fn form(iter: S) -> (r: Self)
        ensures
            r.is_live(),
            r.remaining() == iter.remaining(),
            forall|i: nat| r.future(i) == iter.future(i),
    {
        CSharpIteratorOut { pointer: Some(Box::new(iter)), _element: PhantomData }
    }
}

/// The single shared trampoline: advances the wrapped producer one step.
///
/// If the producer yields a value, the value is written into the
/// caller-owned destination slot `data` and the call returns `true`: the
/// caller may call again. If the producer is exhausted, the slot is left
/// unchanged, the producer's heap allocation is released, and the call
/// returns `false`: the handle is dead and the caller must not call again.
///
/// The release happens on exactly the call that returns `false`, never
/// before (`true` leaves the handle live) and never twice (a dead handle is
/// out of contract, as the precondition states).
pub fn iter_impl_ffi<T: View, S: Sequence<T>>(
    p: &mut CSharpIteratorOut<T, S>,
    data: &mut T,
) -> (more: bool)
    requires
        old(p).is_live(),
    ensures
        final(p).is_live() == more,
        match old(p).remaining() {
            Some(n) => if n == 0 {
                &&& !more
                &&& *final(data) == *old(data)
            } else {
                &&& more
                &&& final(data)@ == old(p).future(0)
                &&& final(p).remaining() == Some((n - 1) as nat)
                &&& forall|i: nat| i < n - 1 ==> final(p).future(i) == old(p).future(i + 1)
            },
            None => {
                &&& more
                &&& final(data)@ == old(p).future(0)
                &&& final(p).remaining() is None
                &&& forall|i: nat| final(p).future(i) == old(p).future(i + 1)
            },
        },
{
    let mut sequence_box = p.pointer.take().unwrap();
    match sequence_box.next() {
        Some(x) => {
            *data = x;
            p.pointer = Some(sequence_box);
            true
        },
        None => {
            // dropping the box here releases the producer's allocation
            false
        },
    }
}

/// Drives the trampoline to exhaustion on a handle over a finite producer,
/// collecting every value that crosses the boundary, in order.
///
/// A producer of `n` values takes exactly `n` calls that return `true`,
/// each delivering the next value of the stream; the call after the last
/// value returns `false` and releases the producer.
pub fn collect_all<T: View + Copy, S: Sequence<T>>(
    p: &mut CSharpIteratorOut<T, S>,
    slot: &mut T,
) -> (out: Vec<T>)
    requires
        old(p).is_live(),
        old(p).remaining() is Some,
    ensures
        !final(p).is_live(),
        out@.len() == old(p).remaining()->Some_0,
        forall|i: int| 0 <= i < out@.len() ==> out@[i]@ == old(p).future(i as nat),
{
    let ghost n: nat = old(p).remaining()->Some_0;
    let mut out: Vec<T> = Vec::new();
    let mut more = iter_impl_ffi(p, slot);
    while more
        invariant
            out@.len() <= n,
            p.is_live() == more,
            more ==> {
                &&& out@.len() < n
                &&& p.remaining() == Some((n - out@.len() - 1) as nat)
                &&& slot@ == old(p).future(out@.len() as nat)
                &&& forall|i: nat|
                    i < n - out@.len() - 1 ==> p.future(i) == old(p).future(
                        out@.len() + 1 + i,
                    )
            },
            !more ==> out@.len() == n,
            forall|j: int| 0 <= j < out@.len() ==> out@[j]@ == old(p).future(j as nat),
        decreases n - out@.len(),
    {
        out.push(*slot);
        more = iter_impl_ffi(p, slot);
    }
    out
}

/// Makes `fuel` calls through a handle over an endless producer, collecting
/// the delivered values in order.
///
/// Every call returns `true`: exhaustion is never observed, the producer is
/// never released, and the handle stays live. A harness over an endless
/// producer must cap its call count externally, as `fuel` does here.
pub fn collect_bounded<T: View + Copy, S: Sequence<T>>(
    p: &mut CSharpIteratorOut<T, S>,
    slot: &mut T,
    fuel: usize,
) -> (out: Vec<T>)
    requires
        old(p).is_live(),
        old(p).remaining() is None,
    ensures
        final(p).is_live(),
        final(p).remaining() is None,
        out@.len() == fuel,
        forall|i: int| 0 <= i < out@.len() ==> out@[i]@ == old(p).future(i as nat),
        forall|i: nat| final(p).future(i) == old(p).future((i + fuel) as nat),
{
    let mut out: Vec<T> = Vec::new();
    let mut calls: usize = 0;
    while calls < fuel
        invariant
            calls <= fuel,
            out@.len() == calls,
            p.is_live(),
            p.remaining() is None,
            forall|j: int| 0 <= j < out@.len() ==> out@[j]@ == old(p).future(j as nat),
            forall|i: nat| p.future(i) == old(p).future((i + calls) as nat),
        decreases fuel - calls,
    {
        let more = iter_impl_ffi(p, slot);
        out.push(*slot);
        calls = calls + 1;
    }
    out
}

/// Round trip across the boundary: collecting the stream a producer
/// delivers through its handle reproduces, value for value, the stream
/// obtained by draining the producer directly, without the wrapper.
///
/// `boundary` is any complete collection through the boundary (as
/// [`collect_all`] ensures of its result, via the stream equality that
/// [`CSharpIteratorOut::form`] ensures), and `direct` any direct drain (as
/// [`crate::sequence::collect_direct`] ensures of its result): the two are
/// equal.
pub proof fn lemma_round_trip<T: View, S: Sequence<T>>(
    s: S,
    boundary: Seq<T::V>,
    direct: Seq<T::V>,
)
    requires
        s.remaining() is Some,
        boundary.len() == s.remaining()->Some_0,
        forall|i: int| 0 <= i < boundary.len() ==> boundary[i] == s.future(i as nat),
        direct.len() == s.remaining()->Some_0,
        forall|i: int| 0 <= i < direct.len() ==> direct[i] == s.future(i as nat),
    ensures
        boundary == direct,
{
    assert(boundary =~= direct);
}

} // verus!

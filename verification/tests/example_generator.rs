use csharp_iterator::generators::{get_iterator, CountingVecs};
use csharp_iterator::handle::{iter_impl_ffi, CSharpIteratorOut};

#[test]
fn forty_counting_vectors_then_exhaustion() {
    // The example entry point: the i-th delivered value (i from 0 to 39)
    // is the vector of exactly i ascending integers 0..i-1; the 41st call
    // observes exhaustion.
    let mut handle = CSharpIteratorOut::form(CountingVecs::new());
    get_iterator(&mut handle);

    let mut slot: Vec<usize> = Vec::new();
    for i in 0..40 {
        assert!(iter_impl_ffi(&mut handle, &mut slot));
        let expected: Vec<usize> = (0..i).collect();
        assert_eq!(slot, expected);
    }
    assert!(!iter_impl_ffi(&mut handle, &mut slot));
    assert!(!handle.live());
}

#[test]
fn entry_point_overwrites_the_record_it_is_handed() {
    // The entry point fully initialises whatever record it is passed: a
    // partly-consumed handle is replaced by a fresh one.
    let mut handle = CSharpIteratorOut::form(CountingVecs::new());
    let mut slot: Vec<usize> = Vec::new();
    for _ in 0..10 {
        assert!(iter_impl_ffi(&mut handle, &mut slot));
    }

    get_iterator(&mut handle);
    assert!(iter_impl_ffi(&mut handle, &mut slot));
    assert_eq!(slot, Vec::<usize>::new());
}

use csharp_iterator::generators::{CountUp, CountingVecs, Repeating};
use csharp_iterator::handle::{collect_all, collect_bounded, iter_impl_ffi, CSharpIteratorOut};
use csharp_iterator::sequence::collect_direct;

#[test]
fn counting_scenario() {
    // Wrap a producer counting 0, 1, 2: three calls deliver the values in
    // order, the fourth reports exhaustion and leaves the slot unchanged.
    let mut handle = CSharpIteratorOut::form(CountUp::new(0, 3));
    let mut slot: usize = 99;

    assert!(iter_impl_ffi(&mut handle, &mut slot));
    assert_eq!(slot, 0);
    assert!(iter_impl_ffi(&mut handle, &mut slot));
    assert_eq!(slot, 1);
    assert!(iter_impl_ffi(&mut handle, &mut slot));
    assert_eq!(slot, 2);

    assert!(handle.live());
    assert!(!iter_impl_ffi(&mut handle, &mut slot));
    assert_eq!(slot, 2);
    assert!(!handle.live());
}

#[test]
fn empty_producer_exhausts_at_once() {
    let mut handle = CSharpIteratorOut::form(CountUp::new(5, 5));
    let mut slot: usize = 42;
    assert!(!iter_impl_ffi(&mut handle, &mut slot));
    assert_eq!(slot, 42);
    assert!(!handle.live());
}

#[test]
fn finite_producer_collects_every_value_in_order() {
    let mut handle = CSharpIteratorOut::form(CountUp::new(5, 9));
    let mut slot: usize = 0;
    let out = collect_all(&mut handle, &mut slot);
    assert_eq!(out, vec![5, 6, 7, 8]);
    assert!(!handle.live());
}

#[test]
fn endless_producer_never_reports_exhaustion() {
    let mut handle = CSharpIteratorOut::form(Repeating::new(7));
    let mut slot: usize = 0;
    let out = collect_bounded(&mut handle, &mut slot, 100);
    assert_eq!(out.len(), 100);
    for v in out {
        assert_eq!(v, 7);
    }
    // Exhaustion was never observed, so the producer was never released.
    assert!(handle.live());
}

#[test]
fn endless_producer_true_on_each_single_call() {
    let mut handle = CSharpIteratorOut::form(Repeating::new(3));
    let mut slot: usize = 0;
    for _ in 0..50 {
        assert!(iter_impl_ffi(&mut handle, &mut slot));
        assert_eq!(slot, 3);
    }
    assert!(handle.live());
}

#[test]
fn round_trip_matches_direct_drain() {
    // Collecting everything that crosses the boundary reproduces the
    // stream a direct drain of an identical producer yields.
    let mut handle = CSharpIteratorOut::form(CountUp::new(10, 20));
    let mut slot: usize = 0;
    let through_boundary = collect_all(&mut handle, &mut slot);
    let direct = collect_direct(CountUp::new(10, 20));
    assert_eq!(through_boundary, direct);
}

#[test]
fn direct_drain_of_counting_vecs() {
    let out = collect_direct(CountingVecs::new());
    assert_eq!(out.len(), 40);
    for (i, v) in out.iter().enumerate() {
        let expected: Vec<usize> = (0..i).collect();
        assert_eq!(v, &expected);
    }
}

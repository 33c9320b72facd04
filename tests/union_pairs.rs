use interval_union::Interval;

fn full() -> Interval {
    Interval(0, u128::MAX)
}

#[test]
fn touching_linear_arcs_merge() {
    assert_eq!(Interval(0, 20).union(&Interval(20, 30)), Some(Interval(0, 30)));
}

#[test]
fn disjoint_linear_arcs_have_no_union() {
    assert_eq!(Interval(0, 7).union(&Interval(10, 20)), None);
}

#[test]
fn linear_arcs_in_either_order() {
    assert_eq!(Interval(25, 35).union(&Interval(5, 30)), Some(Interval(5, 35)));
    assert_eq!(Interval(5, 30).union(&Interval(25, 35)), Some(Interval(5, 35)));
    assert_eq!(Interval(10, 40).union(&Interval(15, 20)), Some(Interval(10, 40)));
}

#[test]
fn wrapping_and_linear_cover_whole_ring() {
    assert_eq!(Interval(0, 10).union(&Interval(9, 8)), Some(full()));
}

#[test]
fn wrapping_arc_extended_by_linear_arc() {
    assert_eq!(Interval(100, 10).union(&Interval(5, 30)), Some(Interval(100, 30)));
    assert_eq!(Interval(5, 30).union(&Interval(100, 10)), Some(Interval(100, 30)));
    assert_eq!(Interval(100, 40).union(&Interval(5, 30)), Some(Interval(100, 40)));
}

#[test]
fn linear_arc_reaching_only_the_tail_has_no_union() {
    assert_eq!(Interval(100, 10).union(&Interval(50, 200)), None);
}

#[test]
fn merge_of_wrapping_and_linear_directly() {
    let through = Interval(100, 10);
    assert_eq!(
        Interval::union_through_starting_point_not_through_starting_point(
            &through,
            &Interval(10, 20)
        ),
        Some(Interval(100, 20))
    );
    assert_eq!(
        Interval::union_through_starting_point_not_through_starting_point(
            &through,
            &Interval(0, 100)
        ),
        Some(full())
    );
    assert_eq!(
        Interval::union_through_starting_point_not_through_starting_point(
            &through,
            &Interval(11, 99)
        ),
        None
    );
}

#[test]
fn two_wrapping_arcs_join() {
    assert_eq!(Interval(100, 10).union(&Interval(200, 50)), Some(Interval(100, 50)));
    assert_eq!(Interval(200, 50).union(&Interval(100, 10)), Some(Interval(100, 50)));
}

#[test]
fn empty_arc_is_identity() {
    let x = Interval(40, 10);
    assert_eq!(Interval(7, 7).union(&x), Some(x.clone()));
    assert_eq!(x.union(&Interval(7, 7)), Some(x.clone()));
    assert_eq!(Interval(3, 3).union(&Interval(5, 5)), Some(Interval(5, 5)));
    assert_eq!(Interval(0, 0).union(&full()), Some(full()));
}

#[test]
fn full_ring_absorbs() {
    for x in [Interval(5, 9), Interval(9, 5), Interval(4, 4), full()] {
        assert_eq!(full().union(&x), Some(full()));
        assert_eq!(x.union(&full()), Some(full()));
    }
}

#[test]
fn non_canonical_full_pair_reads_as_whole_ring() {
    let odd = Interval(5, u128::MAX - 5);
    assert_eq!(odd.union(&Interval(1, 2)), Some(full()));
    assert_eq!(Interval(1, 2).union(&odd), Some(full()));
}

#[test]
fn union_outcome_does_not_depend_on_order() {
    let arcs = [
        Interval(0, 20),
        Interval(20, 30),
        Interval(40, 10),
        Interval(9, 8),
        Interval(5, 5),
        Interval(60, 70),
    ];
    for a in arcs.iter() {
        for b in arcs.iter() {
            assert_eq!(a.union(b).is_some(), b.union(a).is_some());
        }
    }
}

#[test]
fn repeated_calls_agree() {
    let a = Interval(30, 23);
    let b = Interval(20, 30);
    assert_eq!(a.union(&b), a.union(&b));
    let pairs = [(Interval(0, 20), Interval(20, 30)), (Interval(40, 50), Interval(60, 70))];
    assert_eq!(interval_union::union_list(&pairs), interval_union::union_list(&pairs));
}

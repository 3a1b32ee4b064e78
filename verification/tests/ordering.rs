use poker_hand::Rank;
use std::cmp::Ordering;

fn all_ranks() -> Vec<Rank> {
    vec![
        Rank::R2,
        Rank::R3,
        Rank::R4,
        Rank::R5,
        Rank::R6,
        Rank::R7,
        Rank::R8,
        Rank::R9,
        Rank::R10,
        Rank::J,
        Rank::Q,
        Rank::K,
        Rank::A,
    ]
}

#[test]
fn ranks_are_ordered() {
    assert!(Rank::R2 < Rank::R3);
    assert!(Rank::R3 < Rank::R4);
    assert!(Rank::R4 < Rank::R5);
    assert!(Rank::R5 < Rank::R6);
    assert!(Rank::R6 < Rank::R7);
    assert!(Rank::R7 < Rank::R8);
    assert!(Rank::R8 < Rank::R9);
    assert!(Rank::R9 < Rank::R10);
    assert!(Rank::R10 < Rank::J);
    assert!(Rank::J < Rank::Q);
    assert!(Rank::Q < Rank::K);
    assert!(Rank::K < Rank::A);
}

#[test]
fn ranks_far_apart_are_ordered() {
    assert!(Rank::R2 < Rank::K);
    assert!(Rank::R3 < Rank::A);
    assert!(Rank::R2 < Rank::A);
    assert!(Rank::A > Rank::K);
    assert!(!(Rank::A < Rank::R2));
    assert!(!(Rank::K < Rank::K));
    assert!(Rank::K <= Rank::K);
    assert!(Rank::K >= Rank::K);
}

#[test]
fn ordinals_count_up_from_the_two() {
    let ranks = all_ranks();
    assert_eq!(ranks.len(), 13);
    for (i, r) in ranks.iter().enumerate() {
        assert_eq!(r.ordinal() as usize, i);
    }
    assert_eq!(Rank::R2.ordinal(), 0);
    assert_eq!(Rank::R10.ordinal(), 8);
    assert_eq!(Rank::A.ordinal(), 12);
}

#[test]
fn every_pair_of_ranks_compares_by_position() {
    let ranks = all_ranks();
    for (i, a) in ranks.iter().enumerate() {
        for (j, b) in ranks.iter().enumerate() {
            assert_eq!(a.partial_cmp(b), Some(i.cmp(&j)));
            assert_eq!(a < b, i < j);
            assert_eq!(a == b, i == j);
            assert_eq!(a > b, i > j);
        }
    }
}

#[test]
fn total_and_partial_order_agree() {
    let ranks = all_ranks();
    for a in ranks.iter() {
        for b in ranks.iter() {
            assert_eq!(a.partial_cmp(b), Some(a.cmp(b)));
        }
    }
    assert_eq!(Rank::R2.cmp(&Rank::A), Ordering::Less);
    assert_eq!(Rank::Q.cmp(&Rank::Q), Ordering::Equal);
    assert_eq!(Rank::A.cmp(&Rank::K), Ordering::Greater);
    assert_eq!(Rank::J.max(Rank::R10), Rank::J);
}

#[test]
fn order_is_transitive_over_all_triples() {
    let ranks = all_ranks();
    for a in ranks.iter() {
        for b in ranks.iter() {
            for c in ranks.iter() {
                if a < b && b < c {
                    assert!(a < c);
                }
            }
        }
    }
}

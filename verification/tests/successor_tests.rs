//! The successor list: order, distinctness, bound.

use rings_node::did::Did;
use rings_node::successor::SuccessorList;

fn d(x: u128) -> Did {
    Did::new(0, x)
}

#[test]
fn empty_list_answers_self() {
    let s = SuccessorList::new(d(10), 3);
    assert!(s.is_none());
    assert_eq!(s.min(), d(10));
    assert_eq!(s.max(), d(10));
    assert_eq!(s.list().len(), 0);
}

#[test]
fn update_keeps_bias_order_without_duplicates() {
    let mut s = SuccessorList::new(d(10), 3);
    s.update(d(14));
    s.update(d(11));
    s.update(d(11));
    s.update(d(10));
    assert_eq!(s.list(), vec![d(11), d(14)]);
    assert_eq!(s.min(), d(11));
    assert_eq!(s.max(), d(14));
    assert!(s.contains(d(14)));
    assert!(!s.contains(d(10)));
}

#[test]
fn update_wraps_by_bias_not_by_value() {
    // from base 10, id 5 wraps nearly all the way round: farthest
    let mut s = SuccessorList::new(d(10), 3);
    s.update(d(5));
    s.update(d(12));
    assert_eq!(s.list(), vec![d(12), d(5)]);
}

#[test]
fn update_clips_to_capacity_dropping_the_farthest() {
    let mut s = SuccessorList::new(d(10), 3);
    s.update(d(14));
    s.update(d(13));
    s.update(d(12));
    s.update(d(11));
    assert_eq!(s.list(), vec![d(11), d(12), d(13)]);
    // an entry farther than all listed, at capacity, is not kept
    s.update(d(15));
    assert_eq!(s.list(), vec![d(11), d(12), d(13)]);
}

#[test]
fn remove_keeps_the_rest_in_order() {
    let mut s = SuccessorList::new(d(10), 3);
    s.update(d(11));
    s.update(d(12));
    s.update(d(13));
    s.remove(d(12));
    assert_eq!(s.list(), vec![d(11), d(13)]);
    s.remove(d(99));
    assert_eq!(s.list(), vec![d(11), d(13)]);
    s.remove(d(11));
    assert_eq!(s.list(), vec![d(13)]);
}

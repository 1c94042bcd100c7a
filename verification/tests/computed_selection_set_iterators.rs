use lib::templates::rendering_helpers::computed_selection_set_iterators::SelectionsIterator;

type NoFilter = fn(&i32) -> bool;

#[test]
fn test_empty_iterator() {
    let iter: SelectionsIterator<i32, NoFilter> = SelectionsIterator::new(None, vec![], None);
    assert!(iter.is_empty());
    assert_eq!(iter.collect_all(), Vec::<i32>::new());
}

#[test]
fn test_direct_only() {
    let iter = SelectionsIterator::new(Some(vec![1, 2, 3]), vec![], None::<NoFilter>);
    assert!(!iter.is_empty());
    assert_eq!(iter.collect_all(), vec![1, 2, 3]);
}

#[test]
fn test_merged_only() {
    let iter = SelectionsIterator::new(None, vec![4, 5, 6], None::<NoFilter>);
    assert!(!iter.is_empty());
    assert_eq!(iter.collect_all(), vec![4, 5, 6]);
}

#[test]
fn test_direct_then_merged() {
    let iter = SelectionsIterator::new(Some(vec![1, 2]), vec![3, 4], None::<NoFilter>);
    assert_eq!(iter.collect_all(), vec![1, 2, 3, 4]);
}

#[test]
fn test_with_filter() {
    let filter: Box<dyn Fn(&i32) -> bool> = Box::new(|x| *x % 2 == 0);
    let iter = SelectionsIterator::new(Some(vec![1, 2, 3, 4]), vec![5, 6, 7, 8], Some(filter));
    assert_eq!(iter.collect_all(), vec![2, 4, 6, 8]);
}

#[test]
fn test_filter_empty_result() {
    let filter: Box<dyn Fn(&i32) -> bool> = Box::new(|x| *x > 100);
    let iter = SelectionsIterator::new(Some(vec![1, 2]), vec![3, 4], Some(filter));
    assert_eq!(iter.collect_all(), Vec::<i32>::new());
}

#[test]
fn test_is_empty_with_none_direct() {
    let iter: SelectionsIterator<i32, NoFilter> = SelectionsIterator::new(None, vec![], None);
    assert!(iter.is_empty());
}

#[test]
fn test_is_empty_with_empty_direct() {
    let iter: SelectionsIterator<i32, NoFilter> = SelectionsIterator::new(Some(vec![]), vec![], None);
    assert!(iter.is_empty());
}

#[test]
fn test_is_not_empty_with_direct() {
    let iter = SelectionsIterator::new(Some(vec![1]), vec![], None::<NoFilter>);
    assert!(!iter.is_empty());
}

#[test]
fn test_is_not_empty_with_merged() {
    let iter: SelectionsIterator<i32, NoFilter> = SelectionsIterator::new(None, vec![1], None);
    assert!(!iter.is_empty());
}

#[test]
fn iterator_next_steps_through_both_collections() {
    let mut iter = SelectionsIterator::new(Some(vec![10]), vec![20], None::<NoFilter>);
    assert_eq!(iter.next(), Some(10));
    assert_eq!(iter.next(), Some(20));
    assert_eq!(iter.next(), None);
    assert_eq!(iter.next(), None);
    assert!(!iter.is_empty());
}

#[test]
fn iterator_filter_skips_across_collections() {
    let mut iter = SelectionsIterator::new(Some(vec![1, 3]), vec![5, 6], Some(|x: &i32| *x > 4));
    assert_eq!(iter.next(), Some(5));
    assert_eq!(iter.next(), Some(6));
    assert_eq!(iter.next(), None);
}

#[test]
fn filtered_run_gives_accepted_items_in_order_then_none() {
    let mut iter = SelectionsIterator::new(Some(vec![1, 2, 3, 4]), vec![5, 6, 7, 8], Some(|x: &i32| *x % 2 == 0));
    assert_eq!(iter.next(), Some(2));
    assert_eq!(iter.next(), Some(4));
    assert_eq!(iter.next(), Some(6));
    assert_eq!(iter.next(), Some(8));
    assert_eq!(iter.next(), None);
    assert_eq!(iter.next(), None);
    assert!(!iter.is_empty());
    let empty: SelectionsIterator<i32, NoFilter> = SelectionsIterator::new(Some(vec![]), vec![], None);
    assert!(empty.is_empty());
}

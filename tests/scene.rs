use raytrace::scene::{nearest_hit, HittableList};

#[test]
fn list_add_keeps_order() {
    let mut list: HittableList<u32> = HittableList::new();
    assert!(list.objects.is_empty());
    list.add(7);
    list.add(3);
    assert_eq!(list.objects, vec![7, 3]);
}

#[test]
fn list_clear_empties() {
    let mut list: HittableList<&str> = HittableList::new();
    list.add("ground");
    list.add("ball");
    list.clear();
    assert!(list.objects.is_empty());
    list.add("glass");
    assert_eq!(list.objects, vec!["glass"]);
}

#[test]
fn nearest_of_no_objects() {
    assert_eq!(nearest_hit(&vec![]), None);
}

#[test]
fn nearest_when_all_miss() {
    assert_eq!(nearest_hit(&vec![None, None, None]), None);
}

#[test]
fn nearest_picks_smallest_key() {
    assert_eq!(nearest_hit(&vec![Some(9), None, Some(4), Some(6)]), Some(2));
    assert_eq!(nearest_hit(&vec![None, Some(1)]), Some(1));
    assert_eq!(nearest_hit(&vec![Some(0), Some(u64::MAX)]), Some(0));
}

#[test]
fn nearest_of_equal_hits_is_last() {
    assert_eq!(nearest_hit(&vec![Some(5), None, Some(3), Some(3)]), Some(3));
    assert_eq!(nearest_hit(&vec![Some(2), Some(2)]), Some(1));
}

#[test]
fn nearest_same_in_either_order() {
    let a = Some(40);
    let b = Some(25);
    let ab = vec![a, b];
    let ba = vec![b, a];
    let i = nearest_hit(&ab).unwrap();
    let j = nearest_hit(&ba).unwrap();
    assert_eq!(ab[i], ba[j]);
    assert_eq!(j, 1 - i);
    assert_eq!(ab[i], b);
}

#[test]
fn nearest_same_over_reordering() {
    let keys = vec![Some(8), None, Some(2), Some(11)];
    let moved = vec![Some(11), Some(2), None, Some(8)];
    let i = nearest_hit(&keys).unwrap();
    let j = nearest_hit(&moved).unwrap();
    assert_eq!(keys[i], moved[j]);
    assert_eq!(keys[i], Some(2));
}

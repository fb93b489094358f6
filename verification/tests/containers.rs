use container_types::demo;
use container_types::growvec::CapVec;
use container_types::labelmap::LabelMap;
use container_types::sorting::sort_i32;

#[test]
fn sort_literal_array() {
    let mut x = vec![10, 12, 4, 2, 100];
    sort_i32(&mut x);
    assert_eq!(x, vec![2, 4, 10, 12, 100]);
}

#[test]
fn sort_empty() {
    let mut x: Vec<i32> = Vec::new();
    sort_i32(&mut x);
    assert!(x.is_empty());
}

#[test]
fn sort_single() {
    let mut x = vec![7];
    sort_i32(&mut x);
    assert_eq!(x, vec![7]);
}

#[test]
fn sort_with_duplicates() {
    let mut x = vec![5, 1, 5, 1, 3];
    sort_i32(&mut x);
    assert_eq!(x, vec![1, 1, 3, 5, 5]);
}

#[test]
fn sort_reverse_order() {
    let mut x = vec![9, 7, 5, 3, 1];
    sort_i32(&mut x);
    assert_eq!(x, vec![1, 3, 5, 7, 9]);
}

#[test]
fn sort_already_sorted() {
    let mut x = vec![-3, 0, 2, 2, 8];
    sort_i32(&mut x);
    assert_eq!(x, vec![-3, 0, 2, 2, 8]);
}

#[test]
fn capacity_doubles_when_grown_past() {
    let mut numbers = CapVec::with_capacity(4);
    assert_eq!(numbers.len(), 0);
    assert_eq!(numbers.capacity(), 4);
    numbers.push(1);
    numbers.push(2);
    numbers.push(3);
    numbers.push(4);
    assert_eq!(numbers.len(), 4);
    assert_eq!(numbers.capacity(), 4);
    numbers.push(5);
    assert_eq!(numbers.len(), 5);
    assert_eq!(numbers.capacity(), 8);
    assert_eq!(numbers.items(), &vec![1, 2, 3, 4, 5]);
}

#[test]
fn pop_keeps_capacity() {
    let mut numbers = CapVec::with_capacity(4);
    for i in 1..=5 {
        numbers.push(i);
    }
    let last = numbers.pop();
    assert_eq!(last, Some(5));
    assert_eq!(numbers.len(), 4);
    assert_eq!(numbers.capacity(), 8);
}

#[test]
fn capacity_grows_from_zero() {
    let mut v = CapVec::with_capacity(0);
    assert_eq!(v.capacity(), 0);
    v.push(1);
    assert_eq!(v.capacity(), 1);
    v.push(2);
    assert_eq!(v.capacity(), 2);
    v.push(3);
    assert_eq!(v.capacity(), 4);
    assert_eq!(v.len(), 3);
}

#[test]
fn pop_of_empty_returns_none() {
    let mut v = CapVec::with_capacity(2);
    assert_eq!(v.pop(), None);
    assert_eq!(v.len(), 0);
    assert_eq!(v.capacity(), 2);
}

#[test]
fn map_insert_and_get() {
    let mut m = LabelMap::new();
    m.insert("Open".to_owned(), vec![20]);
    assert!(m.check_wf());
    assert_eq!(m.get(&"Open".to_owned()), Some(&vec![20]));
    assert_eq!(m.get(&"Missing".to_owned()), None);
}

#[test]
fn map_insert_replaces_value_under_same_key() {
    let mut m = LabelMap::new();
    m.insert("Open".to_owned(), vec![20]);
    m.insert("Open".to_owned(), vec![99]);
    assert!(m.check_wf());
    assert_eq!(m.num_entries(), 1);
    assert_eq!(m.get(&"Open".to_owned()), Some(&vec![99]));
}

#[test]
fn map_keeps_first_insertion_order() {
    let mut m = LabelMap::new();
    m.insert("a".to_owned(), vec![1]);
    m.insert("b".to_owned(), vec![2]);
    m.insert("a".to_owned(), vec![3]);
    assert_eq!(m.num_entries(), 2);
    assert_eq!(m.key_at(0).as_str(), "a");
    assert_eq!(m.key_at(1).as_str(), "b");
    assert_eq!(m.value_at(0), &vec![3]);
    assert_eq!(m.value_at(1), &vec![2]);
}

#[test]
fn ohlc_map_lookup_open() {
    let m = demo::ohlc_map();
    assert_eq!(m.get(&"Open".to_owned()), Some(&vec![20]));
    assert_eq!(m.get(&"High".to_owned()), Some(&vec![25]));
    assert_eq!(m.get(&"Low".to_owned()), Some(&vec![18]));
    assert_eq!(m.get(&"Close".to_owned()), Some(&vec![21]));
    assert_eq!(m.num_entries(), 4);
}

#[test]
fn ohlc_map_iterates_every_pair() {
    let m = demo::ohlc_map();
    let mut seen: Vec<(String, Vec<i32>)> = Vec::new();
    for i in 0..m.num_entries() {
        seen.push((m.key_at(i).clone(), m.value_at(i).clone()));
    }
    assert_eq!(
        seen,
        vec![
            ("Open".to_owned(), vec![20]),
            ("High".to_owned(), vec![25]),
            ("Low".to_owned(), vec![18]),
            ("Close".to_owned(), vec![21]),
        ]
    );
}

#[test]
fn tuple_line_matches() {
    let p = demo::point();
    assert_eq!(p, (3, 4, 5));
    let line = format!("X: {}, Y: {}, Z:{}", p.0, p.1, p.2);
    assert_eq!(line, "X: 3, Y: 4, Z:5");
}

#[test]
fn demo_values_match_the_literals() {
    assert_eq!(demo::rgb_channels(), (100, 255, 20));
    assert_eq!(
        demo::names(),
        vec!["Chase", "Alecia", "Rilyn", "Jaylee"]
    );
    assert_eq!(demo::sample_values(), vec![10, 12, 4, 2, 100]);
    assert_eq!(demo::evens(), vec![2, 4, 6, 8, 10]);
    assert_eq!(demo::odds(), vec![1, 3]);
}

#[test]
fn sorted_sample_matches_expected() {
    let mut x = demo::sample_values();
    sort_i32(&mut x);
    assert_eq!(x, vec![2, 4, 10, 12, 100]);
}

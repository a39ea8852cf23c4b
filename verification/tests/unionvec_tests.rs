use unioncollections::index::{Type1, Type2};
use unioncollections::select::SelectHandle;
use unioncollections::unionvec::UnionVec;

#[test]
fn test_unionvec_change_to() {
    let mut union_vec = UnionVec::<String, Type1, (String, u64)>::new();
    union_vec.push(String::from("test"));
    assert_eq!(union_vec.pop(), Some(String::from("test")));

    let mut union_vec = union_vec.change_to::<Type2>();
    union_vec.push(10);

    assert_eq!(union_vec.len(), 1);
    assert_eq!(union_vec.pop(), Some(10));
}

#[test]
fn test_union_vec_map() {
    let mut union_vec = UnionVec::<&str, Type1, (&str, u64)>::new();

    for s in vec!["10", "20", "30", "40"] {
        union_vec.push(s);
    }

    let mut union_vec = union_vec.map::<Type2, _>(|s| s.parse().unwrap());

    assert_eq!(union_vec.len(), 4);
    assert_eq!(union_vec.pop(), Some(40));
}

#[test]
fn test_union_filter_map() {
    let mut union_vec = UnionVec::<&str, Type1, (&str, u64)>::new();

    for s in vec!["10", "20", "30", "40e"] {
        union_vec.push(s);
    }

    let mut union_vec = union_vec.filter_map::<Type2, _>(|s| s.parse().ok());

    // the last parse failed, so there are only 3 items in the vec.
    assert_eq!(union_vec.len(), 3);

    // the capacity is still 4!
    assert_eq!(union_vec.capacity(), 4);
}

#[test]
fn strings_map_to_integers_pop_in_reverse() {
    let mut v = UnionVec::<String, Type1, (String, u64)>::new();
    for s in vec!["10", "20", "30", "40"] {
        v.push(String::from(s));
    }

    let mut v = v.map::<Type2, _>(|s| s.parse().unwrap());

    assert_eq!(v.len(), 4);
    assert_eq!(v.pop(), Some(40));
    assert_eq!(v.pop(), Some(30));
    assert_eq!(v.pop(), Some(20));
    assert_eq!(v.pop(), Some(10));
    assert_eq!(v.pop(), None);
}

#[test]
fn strings_filter_map_drops_bad_parse_keeps_capacity() {
    let mut v = UnionVec::<String, Type1, (String, u64)>::new();
    for s in vec!["10", "20", "30", "40e"] {
        v.push(String::from(s));
    }
    assert_eq!(v.capacity(), 4);

    let mut v = v.filter_map::<Type2, _>(|s| s.parse().ok());

    assert_eq!(v.len(), 3);
    assert_eq!(v.capacity(), 4);
    assert_eq!(v.pop(), Some(30));
    assert_eq!(v.pop(), Some(20));
    assert_eq!(v.pop(), Some(10));
}

#[test]
fn filter_map_keeps_original_order() {
    let mut v = UnionVec::<u64, Type2, (String, u64)>::new();
    for n in vec![1, 2, 3, 4, 5, 6] {
        v.push(n);
    }

    let v = v.filter_map::<Type1, _>(|n| if n % 2 == 0 { Some(n.to_string()) } else { None });

    assert_eq!(v.len(), 3);
    assert_eq!(v.get(0).as_str(), "2");
    assert_eq!(v.get(1).as_str(), "4");
    assert_eq!(v.get(2).as_str(), "6");
}

#[test]
fn change_to_preserves_capacity_and_clears() {
    let mut v = UnionVec::<String, Type1, (String, u64)>::with_capacity(8);
    v.push(String::from("a"));
    v.push(String::from("b"));
    assert_eq!(v.capacity(), 8);

    let v = v.change_to::<Type2>();
    assert_eq!(v.len(), 0);
    assert_eq!(v.capacity(), 8);
}

#[test]
fn map_preserves_length_empty_and_filled() {
    let empty = UnionVec::<String, Type1, (String, u64)>::new();
    let empty = empty.map::<Type2, _>(|s| s.len() as u64);
    assert_eq!(empty.len(), 0);

    let mut filled = UnionVec::<String, Type1, (String, u64)>::new();
    for n in 0..5 {
        filled.push(n.to_string());
    }
    let filled = filled.map::<Type2, _>(|s| s.len() as u64);
    assert_eq!(filled.len(), 5);
}

#[test]
fn pop_on_empty_returns_none() {
    let mut v = UnionVec::<u64, Type2, (String, u64)>::new();
    assert_eq!(v.pop(), None);
    assert_eq!(v.capacity(), 0);
}

#[test]
fn push_grows_capacity_by_doubling() {
    let mut v = UnionVec::<u64, Type2, (String, u64)>::new();
    let mut seen = Vec::new();
    for n in 0..5 {
        v.push(n);
        seen.push(v.capacity());
    }
    assert_eq!(seen, vec![1, 2, 4, 4, 8]);
}

#[test]
fn insert_remove_swap_remove() {
    let mut v = UnionVec::<u64, Type2, (String, u64)>::new();
    v.push(1);
    v.push(3);
    v.insert(1, 2);
    assert_eq!(v.len(), 3);
    assert_eq!(*v.get(0), 1);
    assert_eq!(*v.get(1), 2);
    assert_eq!(*v.get(2), 3);

    assert_eq!(v.remove(0), 1);
    assert_eq!(*v.get(0), 2);

    v.push(9);
    // [2, 3, 9]: swap_remove(0) moves the last element into place.
    assert_eq!(v.swap_remove(0), 2);
    assert_eq!(*v.get(0), 9);
    assert_eq!(*v.get(1), 3);
}

#[test]
fn truncate_and_reserve() {
    let mut v = UnionVec::<u64, Type2, (String, u64)>::new();
    for n in 0..6 {
        v.push(n);
    }
    v.truncate(2);
    assert_eq!(v.len(), 2);
    assert_eq!(*v.get(1), 1);
    v.truncate(5);
    assert_eq!(v.len(), 2);

    let cap = v.capacity();
    v.reserve(20);
    assert!(v.capacity() >= 22);
    assert!(cap < v.capacity());
    assert_eq!(v.len(), 2);
}

#[test]
fn drain_middle_range() {
    let mut v = UnionVec::<u64, Type2, (String, u64)>::new();
    for n in 0..6 {
        v.push(n);
    }
    let cap = v.capacity();
    let drained = v.drain(1, 4);
    assert_eq!(drained, vec![1, 2, 3]);
    assert_eq!(v.len(), 3);
    assert_eq!(v.capacity(), cap);
    assert_eq!(*v.get(0), 0);
    assert_eq!(*v.get(1), 4);
    assert_eq!(*v.get(2), 5);
}

#[test]
fn default_is_empty() {
    let v = UnionVec::<u64, Type2, (String, u64)>::default();
    assert_eq!(v.len(), 0);
    assert_eq!(v.capacity(), 0);
}

#[test]
fn into_vec_moves_elements_in_order() {
    let mut v = UnionVec::<String, Type1, (String, u64)>::new();
    for s in vec!["a", "b", "c"] {
        v.push(String::from(s));
    }
    let plain = v.into_vec();
    assert_eq!(plain, vec!["a".to_string(), "b".to_string(), "c".to_string()]);
}

#[test]
fn set_overwrites_in_place() {
    let mut v = UnionVec::<u64, Type2, (String, u64)>::new();
    v.push(1);
    v.push(2);
    let cap = v.capacity();
    v.set(0, 9);
    assert_eq!(*v.get(0), 9);
    assert_eq!(*v.get(1), 2);
    assert_eq!(v.len(), 2);
    assert_eq!(v.capacity(), cap);
}

#[test]
fn into_data_exposes_cells() {
    let mut v = UnionVec::<u64, Type2, (String, u64)>::new();
    v.push(3);
    v.push(4);
    let cells = v.into_data();
    assert_eq!(cells.len(), 2);
    let h = SelectHandle::<u64, Type2, (String, u64)>::from_inner(cells[0].clone());
    assert_eq!(h.into(), 3);
}

#[test]
fn clone_keeps_length_and_capacity() {
    let mut v = UnionVec::<String, Type1, (String, u64)>::with_capacity(3);
    v.push(String::from("x"));
    let c = v.clone();
    assert_eq!(c.len(), 1);
    assert_eq!(c.capacity(), 3);
    assert_eq!(c.get(0).as_str(), "x");
}

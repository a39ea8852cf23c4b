use std::mem::size_of;
use unioncollections::index::{Type1, Type2, B};
use unioncollections::selectvec::{SelectItem, SelectVec};
use unioncollections::union::Union2;

#[test]
fn select_type() {
    let mut vec = SelectVec::<char, Type1, (char, u8, String)>::new();
    vec.push('a');

    let mut changed = vec.map::<B, _>(|c| c as u8);

    changed.push(10);
    assert_eq!(changed.pop(), Some(10));
}

#[test]
fn selectvec_convertion_test() {
    let mut vec = SelectVec::<u16, Type1, (u16, Result<u32, ()>)>::new();

    vec.push(10);
    vec.push(20);
    vec.push(30);
    vec.push(40);

    let changed = vec.map::<B, _>(|s| Ok(s as u32));
    {
        assert_eq!(changed.get(0), &Ok(10));
        assert_eq!(changed.get(1), &Ok(20));
        assert_eq!(changed.get(2), &Ok(30));
        assert_eq!(changed.get(3), &Ok(40));
    }

    let _clone = changed.clone();
}

#[test]
fn selectvec22_convertion_test() {
    let mut vec = SelectVec::<u16, Type1, (u16, Result<u32, ()>, u32)>::new();

    vec.push(10);
    vec.push(20);
    vec.push(30);
    vec.push(40);

    let changed = vec.map::<B, _>(|s| Ok(s as u32));
    {
        assert_eq!(changed.get(0), &Ok(10));
        assert_eq!(changed.get(1), &Ok(20));
        assert_eq!(changed.get(2), &Ok(30));
        assert_eq!(changed.get(3), &Ok(40));
    }
}

#[test]
fn test_rev_iter() {
    let mut vec = SelectVec::<u32, Type1, (u32, ())>::new();
    for n in 0..10 {
        vec.push(n);
    }

    let mut iter = vec.into_iter();

    assert_eq!(iter.next_back(), Some(9));
    assert_eq!(iter.next_back(), Some(8));
    assert_eq!(iter.next_back(), Some(7));
    assert_eq!(iter.next_back(), Some(6));
    assert_eq!(iter.next_back(), Some(5));
    assert_eq!(iter.next_back(), Some(4));
    assert_eq!(iter.next_back(), Some(3));
    assert_eq!(iter.next_back(), Some(2));
    assert_eq!(iter.next_back(), Some(1));
    assert_eq!(iter.next_back(), Some(0));
    assert_eq!(iter.next_back(), None);
}

#[test]
fn into_iter_yields_front_and_back() {
    let mut vec = SelectVec::<u32, Type1, (u32, ())>::new();
    for n in 0..4 {
        vec.push(n);
    }
    let mut iter = vec.into_iter();
    assert_eq!(iter.remaining(), 4);
    assert_eq!(iter.next(), Some(0));
    assert_eq!(iter.next_back(), Some(3));
    assert_eq!(iter.next(), Some(1));
    assert_eq!(iter.next(), Some(2));
    assert_eq!(iter.next(), None);
    assert_eq!(iter.next_back(), None);
}

#[test]
fn try_into_vec() {
    let mut vec = SelectVec::<String, Type1, (String, u32)>::new();

    vec.push(String::from("10"));
    vec.push(String::from("20"));

    let ints = vec.map::<B, _>(|s| s.parse().unwrap());

    // u32 is the second member of the universe.
    assert_eq!(ints.current_type(), 1);

    let mut v = match ints.try_to_vec() {
        Ok(v) => v,
        Err(_) => panic!("alignment of the cell is a multiple of u32's"),
    };

    assert_eq!(v.capacity(), 12);
    assert_eq!(v.len(), 2);
    assert_eq!(v.pop(), Some(20));
    assert_eq!(v.pop(), Some(10));
    assert_eq!(v.pop(), None);
}

#[test]
fn try_into_vec_map() {
    let mut vec = SelectVec::<String, Type1, (String, u32)>::new();

    vec.push(String::from("10"));
    vec.push(String::from("20"));

    let mut v = match vec.try_to_vec_map::<B, _>(|s| s.parse().unwrap()) {
        Ok(v) => v,
        Err(_) => panic!("alignment of the cell is a multiple of u32's"),
    };

    assert_eq!(v.capacity(), 12);
    assert_eq!(v.len(), 2);
    assert_eq!(v.pop(), Some(20));
    assert_eq!(v.pop(), Some(10));
    assert_eq!(v.pop(), None);
}

#[test]
fn parsed_integers_hand_buffer_over() {
    // A vector over the universe (i64, String): it starts over the string
    // member and is retyped to i64 by a parsing transform.
    let mut vec = SelectVec::<String, Type2, (i64, String)>::new();
    for s in vec!["10", "20", "30", "40"] {
        vec.push(String::from(s));
    }

    assert_eq!(vec.capacity(), 4);
    let ints = vec.map::<Type1, _>(|s| s.parse::<i64>().unwrap());

    let old_capacity = 4;
    let expected_capacity = old_capacity * size_of::<Union2<i64, String>>() / size_of::<i64>();

    let v = match ints.try_to_vec() {
        Ok(v) => v,
        Err(_) => panic!("alignment of the cell is a multiple of i64's"),
    };
    assert_eq!(v.capacity(), expected_capacity);
    assert_eq!(v, vec![10, 20, 30, 40]);
}

#[test]
fn change_type_keeps_capacity_only() {
    let mut vec = SelectVec::<String, Type1, (String, u32)>::with_capacity(5);
    vec.push(String::from("x"));
    vec.push(String::from("y"));
    assert_eq!(vec.capacity(), 5);

    let changed = vec.change_type::<Type2>();
    assert_eq!(changed.len(), 0);
    assert_eq!(changed.capacity(), 5);
}

#[test]
fn maybe_map_length_counts_kept_elements() {
    let mut vec = SelectVec::<u32, Type1, (u32, String)>::new();
    for n in 0..8 {
        vec.push(n);
    }
    let cap = vec.capacity();

    let strings = vec.maybe_map::<Type2, _>(
        |n| if n % 3 == 0 { Some(n.to_string()) } else { None },
    );

    assert_eq!(strings.len(), 3);
    assert_eq!(strings.capacity(), cap);
    assert_eq!(strings.get(0).as_str(), "0");
    assert_eq!(strings.get(1).as_str(), "3");
    assert_eq!(strings.get(2).as_str(), "6");
}

#[test]
fn selectvec_mutation_suite() {
    let mut v = SelectVec::<u32, Type1, (u32, String)>::new();
    v.push(5);
    v.insert(0, 4);
    assert_eq!(*v.get(0), 4);
    assert_eq!(v.remove(1), 5);
    v.push(6);
    v.push(7);
    assert_eq!(v.swap_remove(0), 4);
    v.truncate(1);
    assert_eq!(v.len(), 1);
    let drained = v.drain(0, 1);
    assert_eq!(drained, vec![7]);
    assert_eq!(v.len(), 0);
    v.reserve(3);
    assert!(v.capacity() >= 3);
    let d = SelectVec::<u32, Type1, (u32, String)>::default();
    assert_eq!(d.len(), 0);
}

#[test]
fn select_slice_reads_elements() {
    let mut vec = SelectVec::<u32, Type1, (u32, String)>::new();
    vec.push(4);
    vec.push(5);

    let slice = vec.as_select_slice();
    assert_eq!(slice.len(), 2);
    assert_eq!(slice.current_type(), 0);
    assert_eq!(*slice.get(0), 4);
    assert_eq!(*slice.get(1), 5);

    let item = SelectItem::<u32, Type1, (u32, String)>::from(6);
    assert_eq!(item.into(), 6);
}

#[test]
fn set_overwrites_element() {
    let mut v = SelectVec::<String, Type2, (i64, String)>::new();
    v.push(String::from("a"));
    v.push(String::from("b"));
    v.set(1, String::from("c"));
    assert_eq!(v.get(0).as_str(), "a");
    assert_eq!(v.get(1).as_str(), "c");
}

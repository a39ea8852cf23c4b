use unioncollections::index::{Type1, Type2};
use unioncollections::select::SelectHandle;

#[test]
fn handle_round_trip() {
    let h = SelectHandle::<String, Type1, (String, u64)>::from(String::from("hi"));
    assert_eq!(h.into(), String::from("hi"));
}

#[test]
fn handle_round_trip_second_position() {
    let h = SelectHandle::<u64, Type2, (String, u64)>::from(77);
    assert_eq!(h.into(), 77);
}

#[test]
fn test_copy_select_handle() {
    let handle = SelectHandle::<String, Type1, (String, u64)>::from(String::from("hi"));

    let mut handle = handle.change_to::<Type2>();
    handle.write(10);
    let copy = handle.copy_current();

    assert_eq!(copy, 10);
}

#[test]
fn handle_clone_current() {
    let handle = SelectHandle::<String, Type1, (String, u64)>::from(String::from("abc"));
    assert_eq!(handle.clone_current(), String::from("abc"));
    assert_eq!(handle.into(), String::from("abc"));
}

#[test]
fn handle_map_parses() {
    let handle = SelectHandle::<&str, Type1, (&str, u64)>::from("32");
    let mapped = handle.map::<Type2, _>(|s| s.parse().unwrap());
    assert_eq!(mapped.into(), 32);
}

#[test]
fn handle_filter_map_keeps_and_drops() {
    let kept = SelectHandle::<&str, Type1, (&str, u64)>::from("8");
    let kept = kept.filter_map::<Type2, _>(|s| s.parse().ok());
    assert_eq!(kept.map(|h| h.into()), Some(8));

    let dropped = SelectHandle::<&str, Type1, (&str, u64)>::from("8x");
    let dropped = dropped.filter_map::<Type2, _>(|s| s.parse().ok());
    assert!(dropped.is_none());
}

#[test]
fn handle_inner_round_trip() {
    let h = SelectHandle::<u64, Type2, (String, u64)>::from(5);
    let cell = h.into_inner();
    let h2 = SelectHandle::<u64, Type2, (String, u64)>::from_inner(cell);
    assert_eq!(h2.into(), 5);
}

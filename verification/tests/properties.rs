use jsonutils::Json;
use jsonutils::TContainer;

/// A number node; the payload is the 64-bit pattern of the value.
fn num(x: f64) -> Json {
    Json::Number(x.to_bits())
}

fn text(s: &str) -> Json {
    Json::Text(s.to_string())
}

#[test]
fn peek_matches_exactly_one_case() {
    let js = text("abc");
    assert!(js.peek::<String>().is_some());
    assert!(js.peek::<bool>().is_none());
    assert!(js.peek::<u64>().is_none());
    assert!(js.peek::<Vec<Json>>().is_none());
    assert!(js.peek::<Vec<(String, Json)>>().is_none());
    // The identity target always matches.
    assert!(js.peek::<Json>().is_some());
    // The node is untouched by any number of peeks.
    assert_eq!(*js.peek::<String>().unwrap(), "abc");
}

#[test]
fn take_on_mismatched_case_is_absent() {
    // take::<string>(Boolean(true)) is absent; the node is consumed either way.
    let js = Json::Boolean(true);
    assert!(js.take::<String>().is_none());

    let js2 = Json::Boolean(true);
    assert_eq!(js2.take::<bool>(), Some(true));
}

#[test]
fn empty_array_and_object_are_not_empty() {
    assert!(Json::Null.empty());
    assert!(!Json::Array(vec![]).empty());
    assert!(!Json::Object(vec![]).empty());
    assert!(!num(0.0).empty());
    assert!(!text("").empty());
    assert!(!Json::Boolean(false).empty());
}

#[test]
fn non_array_iteration_yields_nothing() {
    let js = Json::Object(vec![("key".to_string(), text("value"))]);
    assert!(js.array_iter().next().is_none());

    let mut js2 = text("not an array");
    assert!(js2.array_mut_iter().next().is_none());
    // The node itself is untouched by the attempt.
    assert_eq!(*js2.peek::<String>().unwrap(), "not an array");

    let js3 = num(7.0);
    assert!(js3.array_move_iter().next().is_none());

    assert!(Json::Null.array_move_iter().next().is_none());
}

#[test]
fn property_wrong_type_is_absent_and_key_stays() {
    // {"key": "value"}: a string is found under the right type only, and
    // the lookup leaves the entry in place.
    let js = Json::Object(vec![("key".to_string(), text("value"))]);
    assert_eq!(*js.property::<String>("key".to_string()).unwrap(), "value");
    assert!(js.property::<u64>("key".to_string()).is_none());
    assert_eq!(*js.property::<String>("key".to_string()).unwrap(), "value");
}

#[test]
fn property_missing_key_or_wrong_node_is_absent() {
    let js = Json::Object(vec![("key".to_string(), text("value"))]);
    assert!(js.property::<String>("other".to_string()).is_none());
    // Keys match exactly, case-sensitively.
    assert!(js.property::<String>("KEY".to_string()).is_none());

    let not_a_map = text("value");
    assert!(not_a_map.property::<String>("key".to_string()).is_none());
}

#[test]
fn mut_property_update_is_visible_afterwards() {
    // {"key": 122}: adding 4 through the mutable reference yields 126,
    // observable through a later read-only lookup.
    let mut js = Json::Object(vec![("key".to_string(), num(122.0))]);
    {
        let f = js.mut_property::<u64>("key".to_string()).unwrap();
        *f = (f64::from_bits(*f) + 4f64).to_bits();
    }
    let read = js.property::<u64>("key".to_string()).unwrap();
    assert_eq!(f64::from_bits(*read), 126f64);
}

#[test]
fn mut_property_wrong_type_leaves_node_untouched() {
    let mut js = Json::Object(vec![("key".to_string(), num(122.0))]);
    assert!(js.mut_property::<String>("key".to_string()).is_none());
    assert_eq!(
        f64::from_bits(*js.property::<u64>("key".to_string()).unwrap()),
        122f64
    );
}

#[test]
fn mut_iteration_updates_all_elements() {
    // [1, 2, 3] with one added to each element ends as [2, 3, 4].
    let mut js = Json::Array(vec![num(1.0), num(2.0), num(3.0)]);
    let mut it = js.array_mut_iter();
    while let Some(value) = it.next() {
        let val = value.mut_peek::<u64>().unwrap();
        *val = (f64::from_bits(*val) + 1f64).to_bits();
    }
    drop(it);

    let expected = [2f64, 3f64, 4f64];
    let mut idx = 0;
    let mut reader = js.array_iter();
    while let Some(value) = reader.next() {
        assert_eq!(f64::from_bits(*value.peek::<u64>().unwrap()), expected[idx]);
        idx += 1;
    }
    assert_eq!(idx, expected.len());
}

#[test]
fn pop_property_removes_the_key() {
    // {"key": ["a", "b", "c"]}: popping as an array succeeds and the key
    // is gone afterwards.
    let mut js = Json::Object(vec![(
        "key".to_string(),
        Json::Array(vec![text("a"), text("b"), text("c")]),
    )]);
    let list = js.pop_property::<Vec<Json>>("key".to_string()).unwrap();
    assert_eq!(list.len(), 3);
    let expected = ["a", "b", "c"];
    for (i, element) in list.iter().enumerate() {
        assert_eq!(*element.peek::<String>().unwrap(), expected[i]);
    }
    assert!(js.property::<Json>("key".to_string()).is_none());
    assert!(js.pop_property::<Json>("key".to_string()).is_none());
}

#[test]
fn pop_property_removes_the_key_even_on_type_mismatch() {
    // The entry is removed whenever the key is found; a mismatched target
    // type afterwards loses the removed value.
    let mut js = Json::Object(vec![
        ("first".to_string(), text("value")),
        ("second".to_string(), Json::Boolean(true)),
    ]);
    assert!(js.pop_property::<u64>("first".to_string()).is_none());
    assert!(js.property::<Json>("first".to_string()).is_none());
    // The other entry is untouched.
    assert_eq!(js.property::<bool>("second".to_string()), Some(&true));
}

#[test]
fn pop_property_on_missing_key_or_wrong_node_touches_nothing() {
    let mut js = Json::Object(vec![("key".to_string(), text("value"))]);
    assert!(js.pop_property::<Json>("other".to_string()).is_none());
    assert_eq!(*js.property::<String>("key".to_string()).unwrap(), "value");

    let mut not_a_map = Json::Boolean(false);
    assert!(not_a_map.pop_property::<Json>("key".to_string()).is_none());
    assert_eq!(not_a_map.peek::<bool>(), Some(&false));
}

#[test]
fn identity_extraction_hands_the_node_through() {
    let mut js = Json::Boolean(true);
    assert!(js.peek::<Json>().is_some());
    assert!(js.mut_peek::<Json>().is_some());
    assert_eq!(js.take::<Json>(), Some(Json::Boolean(true)));
}

#[test]
fn mut_peek_replaces_the_payload_in_place() {
    let mut js = text("abc");
    {
        let s = js.mut_peek::<String>().unwrap();
        s.push('d');
    }
    assert_eq!(*js.peek::<String>().unwrap(), "abcd");

    // A mismatch leaves the node untouched.
    assert!(js.mut_peek::<bool>().is_none());
    assert_eq!(*js.peek::<String>().unwrap(), "abcd");
}

#[test]
fn property_lookup_takes_the_first_matching_key() {
    // Insertion order decides which entry a lookup sees.
    let js = Json::Object(vec![
        ("a".to_string(), num(1.0)),
        ("b".to_string(), num(2.0)),
    ]);
    assert_eq!(f64::from_bits(*js.property::<u64>("a".to_string()).unwrap()), 1f64);
    assert_eq!(f64::from_bits(*js.property::<u64>("b".to_string()).unwrap()), 2f64);
}

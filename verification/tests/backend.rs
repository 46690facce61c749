use generic_json::metavalue::array_feed;
use generic_json::metavalue::compare_arrays;
use generic_json::metavalue::compare_nodes;
use generic_json::metavalue::compare_objects;
use generic_json::metavalue::node_feed;
use generic_json::metavalue::object_feed;
use generic_json::metavalue::Key;
use generic_json::metavalue::Object;
use generic_json::Comparable;
use generic_json::Json;
use generic_json::JsonNew;
use generic_json::Literal;
use generic_json::Mapping;
use generic_json::MetaValue;
use generic_json::Number;
use generic_json::Order;
use generic_json::Sequence;
use generic_json::SmallString;
use generic_json::Text;
use generic_json::Value;
use generic_json::ValueMut;
use generic_json::ValueRef;
use generic_json::Zero;
use std::cmp::Ordering;
use std::collections::hash_map::DefaultHasher;
use std::hash::Hash;
use std::hash::Hasher;

fn number(text: &str) -> Literal {
    Literal::parse(text).unwrap()
}

fn digest<T: Hash>(t: &T) -> u64 {
    let mut h = DefaultHasher::new();
    t.hash(&mut h);
    h.finish()
}

/// `{"a": 1, "b": [true, null]}` with the annotation `m` and its successors.
fn sample_a(m: u32) -> MetaValue<u32> {
    let mut object = Object::new();
    object.insert(
        Key::new("b", m + 1),
        MetaValue::array(
            vec![MetaValue::boolean(true, m + 2), MetaValue::null(m + 3)],
            m + 4,
        ),
    );
    object.insert(Key::new("a", m + 5), MetaValue::number(number("1"), m + 6));
    MetaValue::object(object, m)
}

/// The same content under annotations of another type; `short` drops the `null`.
fn sample_b(short: bool) -> MetaValue<String> {
    let mut items = vec![MetaValue::boolean(true, String::from("first"))];
    if !short {
        items.push(MetaValue::null(String::from("second")));
    }
    let mut object = Object::new();
    object.insert(
        Key::new("a", String::from("key a")),
        MetaValue::number(number("1"), String::from("one")),
    );
    object.insert(
        Key::new("b", String::from("key b")),
        MetaValue::array(items, String::from("items")),
    );
    MetaValue::object(object, String::from("root"))
}

fn one_of_each(m: u32) -> Vec<MetaValue<u32>> {
    let mut object = Object::new();
    object.insert(Key::new("k", m), MetaValue::null(m));
    vec![
        MetaValue::null(m),
        MetaValue::boolean(false, m),
        MetaValue::number(number("7"), m),
        MetaValue::string(SmallString::new("s"), m),
        MetaValue::array(vec![MetaValue::null(m)], m),
        MetaValue::object(object, m),
    ]
}

#[test]
fn parts_round_trip() {
    for node in one_of_each(9) {
        let copy = node.clone();
        let (value, meta) = node.into_parts();
        assert_eq!(meta, 9);
        let rebuilt = MetaValue::new(value, meta);
        assert!(rebuilt == copy);
        assert_eq!(*rebuilt.metadata(), 9);
    }
    let node = sample_a(10);
    let copy = node.clone();
    let (value, meta) = node.into_parts();
    let rebuilt = value.with(meta);
    assert!(rebuilt == copy);
    assert_eq!(*rebuilt.metadata(), 10);
}

#[test]
fn node_classification_matches_extraction() {
    for (i, mut node) in one_of_each(0).into_iter().enumerate() {
        assert_eq!(node.is_null(), i == 0);
        assert_eq!(node.is_bool(), i == 1);
        assert_eq!(node.is_number(), i == 2);
        assert_eq!(node.is_string(), i == 3);
        assert_eq!(node.is_array(), i == 4);
        assert_eq!(node.is_object(), i == 5);
        assert_eq!(node.is_bool(), node.as_bool().is_some());
        assert_eq!(node.is_number(), node.as_number().is_some());
        assert_eq!(node.is_string(), node.as_str().is_some());
        assert_eq!(node.is_array(), node.as_array().is_some());
        assert_eq!(node.is_object(), node.as_object().is_some());
        assert_eq!(node.is_array(), node.as_array_mut().is_some());
        assert_eq!(node.is_object(), node.as_object_mut().is_some());
        assert_eq!(node.value().is_null(), i == 0);
        assert_eq!(node.value_mut().is_object(), i == 5);
    }
}

#[test]
fn metadata_is_irrelevant_to_equality() {
    let a = sample_a(0);
    let b = sample_a(100);
    assert!(a == b);
    assert_eq!(a.partial_cmp(&b), Some(Ordering::Equal));
    assert_eq!(compare_nodes(&a, &b), Order::Equal);
    assert!(a.is_same(&b));
    assert!(*a.metadata() != *b.metadata());
}

#[test]
fn metadata_is_irrelevant_to_hashing() {
    assert_eq!(digest(&sample_a(0)), digest(&sample_a(100)));
    assert_eq!(digest(&Key::new("k", 1)), digest(&Key::new("k", 2)));
    assert!(digest(&Key::new("k", 1)) != digest(&Key::new("l", 1)));
    let a: Value<MetaValue<u32>> = Value::from(sample_a(0));
    let b: Value<MetaValue<u32>> = Value::from(sample_a(100));
    assert_eq!(digest(&a), digest(&b));
    let t: Value<MetaValue<u32>> = Value::Boolean(true);
    let f: Value<MetaValue<u32>> = Value::Boolean(false);
    assert!(digest(&t) != digest(&f));
}

#[test]
fn values_of_different_tags_are_ordered_by_tag() {
    let left = one_of_each(1);
    let right = one_of_each(2);
    for (i, a) in left.iter().enumerate() {
        for (j, b) in right.iter().enumerate() {
            let va: Value<MetaValue<u32>> = Value::from(a.clone());
            let vb: Value<MetaValue<u32>> = Value::from(b.clone());
            if i != j {
                assert_eq!(va < vb, i < j);
                assert_eq!(va > vb, i > j);
                assert!((va < vb) != (va > vb));
                assert!(!(va == vb));
                assert_eq!(a < b, i < j);
                assert_eq!(a > b, i > j);
            } else {
                assert!(va == vb);
                assert_eq!(va.compare_to(&vb), Some(Order::Equal));
            }
        }
    }
}

#[test]
fn comparison_is_mirrored() {
    let mut nodes = one_of_each(3);
    nodes.push(sample_a(0));
    nodes.push(MetaValue::boolean(true, 0));
    nodes.push(MetaValue::number(number("0.1e+80"), 0));
    nodes.push(MetaValue::string(SmallString::new("t"), 0));
    nodes.push(MetaValue::array(Vec::new(), 0));
    nodes.push(MetaValue::object(Object::new(), 0));
    let others = vec![sample_b(false), sample_b(true), MetaValue::null(String::new())];
    for a in nodes.iter() {
        for b in others.iter() {
            let ab = compare_nodes(a, b);
            let ba = compare_nodes(b, a);
            assert_eq!(ba, ab.reverse());
            assert_eq!(a == b, b == a);
            assert_eq!(a == b, ab == Order::Equal);
            assert_eq!(a < b, b > a);
        }
        for b in nodes.iter() {
            assert_eq!(compare_nodes(b, a), compare_nodes(a, b).reverse());
        }
        assert_eq!(compare_nodes(a, a), Order::Equal);
    }
}

#[test]
fn two_backends_with_the_same_content_are_equal() {
    let a = sample_a(0);
    let b = sample_b(false);
    assert!(a == b);
    assert!(b == a);
    let va: Value<MetaValue<u32>> = Value::from(a);
    let vb: Value<MetaValue<String>> = Value::from(b);
    assert!(va == vb);
    assert!(vb == va);
    assert_eq!(va.partial_cmp(&vb), Some(Ordering::Equal));
}

#[test]
fn a_shorter_array_comes_first() {
    let va: Value<MetaValue<u32>> = Value::from(sample_a(0));
    let vb: Value<MetaValue<String>> = Value::from(sample_b(true));
    assert!(!(va == vb));
    assert!(va != vb);
    assert!(va > vb);
    assert!(vb < va);
    assert_eq!(va.partial_cmp(&vb), Some(Ordering::Greater));
    assert_eq!(vb.partial_cmp(&va), Some(Ordering::Less));
    assert_eq!(va.compare_to(&vb), Some(Order::Greater));
}

#[test]
fn arrays_are_ordered_by_their_first_difference() {
    let t = || MetaValue::boolean(true, 0u32);
    let f = || MetaValue::boolean(false, 0u32);
    let empty: Vec<MetaValue<u32>> = Vec::new();
    assert_eq!(compare_arrays(&empty, &empty), Order::Equal);
    assert_eq!(compare_arrays(&empty, &vec![f()]), Order::Less);
    assert_eq!(compare_arrays(&vec![f()], &empty), Order::Greater);
    assert_eq!(compare_arrays(&vec![f(), t()], &vec![t()]), Order::Less);
    assert_eq!(compare_arrays(&vec![t()], &vec![f(), t()]), Order::Greater);
    assert_eq!(compare_arrays(&vec![t(), f()], &vec![t(), t()]), Order::Less);
    assert_eq!(compare_arrays(&vec![t(), t()], &vec![t(), t()]), Order::Equal);
    assert_eq!(vec![t()].compare(&vec![t(), f()]), Some(Order::Less));
    assert!(vec![t()].is_same(&vec![t()]));
}

#[test]
fn objects_are_ordered_by_key_and_then_by_node() {
    let make = |key: &str, b: bool| {
        let mut o = Object::new();
        o.insert(Key::new(key, 0u32), MetaValue::boolean(b, 0u32));
        o
    };
    assert_eq!(compare_objects(&make("a", true), &make("b", false)), Order::Less);
    assert_eq!(compare_objects(&make("b", false), &make("a", true)), Order::Greater);
    assert_eq!(compare_objects(&make("a", false), &make("a", true)), Order::Less);
    assert_eq!(compare_objects(&make("a", true), &make("a", true)), Order::Equal);
    let empty: Object<u32> = Object::new();
    assert_eq!(compare_objects(&empty, &make("a", true)), Order::Less);
    assert_eq!(make("a", true).compare(&empty), Some(Order::Greater));
    assert!(make("a", true).is_same(&make("a", true)));
}

#[test]
fn numbers_are_ordered_by_their_literals() {
    let one = MetaValue::number(number("1"), 0u32);
    let small = MetaValue::number(number("0.1e+80"), 0u32);
    assert_eq!(compare_nodes(&one, &small), Order::Greater);
    assert_eq!(compare_nodes(&small, &one), Order::Less);
    assert!(one != MetaValue::number(number("1.0"), 0u32));
    assert_eq!(number("10").compare(&number("9")), Some(Order::Less));
    assert_eq!(number("9").compare(&number("9")), Some(Order::Equal));
    assert!(number("9").is_same(&number("9")));
    assert!(!number("9").is_same(&number("9e0")));
}

#[test]
fn strings_are_ordered_by_their_bytes() {
    let s = |t: &str| SmallString::new(t);
    assert_eq!(s("a").compare(&s("b")), Some(Order::Less));
    assert_eq!(s("b").compare(&s("a")), Some(Order::Greater));
    assert_eq!(s("a").compare(&s("ab")), Some(Order::Less));
    assert_eq!(s("Z").compare(&s("a")), Some(Order::Less));
    assert_eq!(s("z").compare(&s("\u{e9}")), Some(Order::Less));
    assert_eq!(s("x").compare(&s("x")), Some(Order::Equal));
    assert!(s("x").is_same(&s("x")));
    assert!(!s("x").is_same(&s("y")));
    assert!(s("x") == s("x"));
    assert!(s("x").eq_str("x"));
    assert!(!s("x").eq_str("xy"));
    assert_eq!(s("a longer text than sixteen bytes").as_str(), "a longer text than sixteen bytes");
    assert_eq!(s("abc").clone().as_str(), "abc");
    assert_eq!(<SmallString as Text>::from_str("q").as_str(), "q");
    assert_eq!(<String as Text>::from_str("q"), String::from("q"));
    assert_eq!(digest(&s("abc")), digest(&s("abc")));
}

#[test]
fn booleans_are_ordered_false_first() {
    assert_eq!(false.compare(&true), Some(Order::Less));
    assert_eq!(true.compare(&false), Some(Order::Greater));
    assert_eq!(true.compare(&true), Some(Order::Equal));
    assert!(false.is_same(&false));
    assert!(!false.is_same(&true));
    assert!(MetaValue::boolean(false, 0u32) < MetaValue::boolean(true, 1u32));
}

#[test]
fn order_converts_to_and_from_the_standard_type() {
    assert_eq!(Order::Less.to_ordering(), Ordering::Less);
    assert_eq!(Order::Equal.to_ordering(), Ordering::Equal);
    assert_eq!(Order::Greater.to_ordering(), Ordering::Greater);
    assert_eq!(Order::from_ordering(Ordering::Less), Order::Less);
    assert_eq!(Order::from_ordering(Ordering::Equal), Order::Equal);
    assert_eq!(Order::from_ordering(Ordering::Greater), Order::Greater);
    assert_eq!(Order::Less.reverse(), Order::Greater);
    assert_eq!(Order::Equal.reverse(), Order::Equal);
    assert_eq!(Order::Greater.reverse(), Order::Less);
}

#[test]
fn keys_compare_by_text_alone() {
    let a = Key::new("a", 1u32);
    let a2 = Key::new("a", String::from("other"));
    let b = Key::new("b", 1u32);
    assert!(a == a2);
    assert!(a != b);
    assert!(a < b);
    assert_eq!(a.partial_cmp(&a2), Some(Ordering::Equal));
    assert_eq!(b.partial_cmp(&a), Some(Ordering::Greater));
    assert_eq!(a.compare(&b), Some(Order::Less));
    assert!(a.is_same(&a2));
    assert_eq!(generic_json::Key::as_str(&a), "a");
    assert_eq!(*generic_json::Key::metadata(&a), 1);
    let c = a.clone();
    assert_eq!(generic_json::Key::as_str(&c), "a");
    assert_eq!(*generic_json::Key::metadata(&c), 1);
    let k = <MetaValue<u32> as JsonNew>::new_key("name", 4);
    assert_eq!(generic_json::Key::as_str(&k), "name");
    assert_eq!(*generic_json::Key::metadata(&k), 4);
}

#[test]
fn plain_strings_are_keys_without_metadata() {
    let k = String::from("key");
    assert_eq!(generic_json::Key::as_str(&k), "key");
    assert_eq!(*generic_json::Key::metadata(&k), ());
    let s = SmallString::new("small");
    assert_eq!(generic_json::Key::as_str(&s), "small");
    assert_eq!(*generic_json::Key::metadata(&s), ());
}

#[test]
fn object_keeps_its_keys_in_order() {
    let mut o: Object<u32> = Object::new();
    assert!(o.is_empty());
    assert_eq!(o.insert(Key::new("m", 1), MetaValue::boolean(true, 0)).is_none(), true);
    assert!(o.insert(Key::new("a", 2), MetaValue::null(0)).is_none());
    assert!(o.insert(Key::new("z", 3), MetaValue::null(0)).is_none());
    assert!(o.insert(Key::new("b", 4), MetaValue::null(0)).is_none());
    assert_eq!(o.len(), 4);
    let keys: Vec<String> = (0..4)
        .map(|i| generic_json::Key::as_str(o.entry(i).unwrap().0).to_string())
        .collect();
    assert_eq!(keys, vec!["a", "b", "m", "z"]);
    assert!(o.entry(4).is_none());
    assert!(!o.is_empty());
}

#[test]
fn object_insert_replaces_the_node_and_keeps_the_key() {
    let mut o: Object<u32> = Object::new();
    o.insert(Key::new("k", 1), MetaValue::boolean(true, 10));
    let old = o.insert(Key::new("k", 2), MetaValue::boolean(false, 20));
    assert_eq!(old.unwrap().as_bool(), Some(true));
    assert_eq!(o.len(), 1);
    let (key, node) = o.entry(0).unwrap();
    assert_eq!(*generic_json::Key::metadata(key), 1);
    assert_eq!(node.as_bool(), Some(false));
    assert_eq!(*node.metadata(), 20);
}

#[test]
fn object_finds_a_node_by_the_text_of_its_key() {
    let mut o: Object<u32> = Object::new();
    o.insert(Key::new("one", 0), MetaValue::number(number("1"), 0));
    o.insert(Key::new("two", 0), MetaValue::number(number("2"), 0));
    assert_eq!(o.get("one").unwrap().as_u32(), Some(1));
    assert_eq!(o.get("two").unwrap().as_u32(), Some(2));
    assert!(o.get("three").is_none());
    assert!(o.get("").is_none());
    let d: Object<u32> = Object::default();
    assert_eq!(d.len(), 0);
    assert!(d.get("one").is_none());
    let c = o.clone();
    assert_eq!(c.len(), 2);
    assert_eq!(c.get("two").unwrap().as_u32(), Some(2));
}

#[test]
fn vectors_are_arrays() {
    let v = vec![MetaValue::null(1u32), MetaValue::boolean(true, 2u32)];
    assert_eq!(Sequence::len(&v), 2);
    assert!(!Sequence::is_empty(&v));
    assert!(Sequence::get(&v, 0).unwrap().is_null());
    assert_eq!(Sequence::get(&v, 1).unwrap().as_bool(), Some(true));
    assert!(Sequence::get(&v, 2).is_none());
    let e: Vec<MetaValue<u32>> = Vec::new();
    assert!(Sequence::is_empty(&e));
}

#[test]
fn empty_collections_are_recognised() {
    let a: MetaValue<u32> = MetaValue::empty_array(1);
    let o: MetaValue<u32> = MetaValue::empty_object(2);
    assert!(a.is_array());
    assert!(o.is_object());
    assert!(a.is_empty_array());
    assert!(!a.is_empty_object());
    assert!(a.is_empty_array_or_object());
    assert!(o.is_empty_object());
    assert!(!o.is_empty_array());
    assert!(o.is_empty_array_or_object());
    assert_eq!(*a.metadata(), 1);
    assert_eq!(*o.metadata(), 2);
    let full = sample_a(0);
    assert!(!full.is_empty_object());
    assert!(!full.is_empty_array_or_object());
    let filled: MetaValue<u32> = MetaValue::array(vec![MetaValue::null(0)], 0);
    assert!(!filled.is_empty_array());
    assert!(!filled.is_empty_array_or_object());
    let n: MetaValue<u32> = MetaValue::null(0);
    assert!(!n.is_empty_array());
    assert!(!n.is_empty_object());
    assert!(!n.is_empty_array_or_object());
}

#[test]
fn builders_pair_a_payload_with_metadata() {
    let n: MetaValue<&str> = MetaValue::null("n");
    assert!(n.is_null());
    assert_eq!(*n.metadata(), "n");
    let b: MetaValue<&str> = MetaValue::boolean(true, "b");
    assert_eq!(b.as_bool(), Some(true));
    let x: MetaValue<&str> = MetaValue::number(number("42"), "x");
    assert_eq!(x.as_u64(), Some(42));
    assert_eq!(x.as_number().unwrap().as_bytes(), b"42");
    let s: MetaValue<&str> = MetaValue::string(SmallString::new("hi"), "s");
    assert_eq!(s.as_str(), Some("hi"));
    assert_eq!(*s.metadata(), "s");
    let v: MetaValue<&str> = MetaValue::new(Value::Boolean(false), "v");
    assert_eq!(v.as_bool(), Some(false));
    assert_eq!(v.into_value().as_bool(), Some(false));
}

#[test]
fn pairs_hold_the_view_and_the_metadata() {
    let mut node = sample_a(5);
    let (view, meta) = node.as_pair();
    assert!(view.is_object());
    assert_eq!(*meta, 5);
    let (view, meta) = node.as_pair_mut();
    assert!(view.is_object());
    assert_eq!(*meta, 5);
    match node.as_value_ref() {
        ValueRef::Object(o) => assert_eq!(o.len(), 2),
        _ => panic!("an object is shown as an object"),
    }
}

#[test]
fn mutable_views_edit_the_node_and_keep_the_metadata() {
    let mut node: MetaValue<u32> = MetaValue::empty_array(8);
    node.as_array_mut().unwrap().push(MetaValue::null(1));
    assert_eq!(node.as_array().unwrap().len(), 1);
    assert_eq!(*node.metadata(), 8);
    let mut flag: MetaValue<u32> = MetaValue::boolean(false, 9);
    match flag.as_value_mut() {
        ValueMut::Boolean(b) => *b = true,
        _ => panic!("a boolean is shown as a boolean"),
    }
    assert_eq!(flag.as_bool(), Some(true));
    assert_eq!(*flag.metadata(), 9);
    let mut obj: MetaValue<u32> = MetaValue::empty_object(3);
    obj.as_object_mut().unwrap().insert(Key::new("k", 0), MetaValue::null(0));
    assert_eq!(obj.as_object().unwrap().len(), 1);
    assert!(obj.as_array_mut().is_none());
    match obj.value_mut() {
        ValueMut::Object(o) => {
            o.insert(Key::new("j", 0), MetaValue::null(0));
        }
        _ => panic!("an object is shown as an object"),
    }
    assert_eq!(obj.as_object().unwrap().len(), 2);
}

#[test]
fn two_to_the_53_is_an_exact_integer() {
    let n = number("9007199254740992");
    assert_eq!(Number::as_u64(&n), Some(9007199254740992));
    assert_eq!(Number::as_i64(&n), Some(9007199254740992));
    assert_eq!(Number::as_u32(&n), None);
    assert_eq!(Number::as_i32(&n), None);
    let node: MetaValue<u32> = MetaValue::number(n, 0);
    assert_eq!(node.as_u64(), Some(1u64 << 53));
    assert_eq!(node.as_i64(), Some(1i64 << 53));
    assert_eq!(node.as_u32(), None);
}

#[test]
fn a_negative_integer_has_no_unsigned_form() {
    let n = number("-5");
    assert_eq!(Number::as_u32(&n), None);
    assert_eq!(Number::as_u64(&n), None);
    assert_eq!(Number::as_i32(&n), Some(-5));
    assert_eq!(Number::as_i64(&n), Some(-5));
    let zero = number("-0");
    assert_eq!(Number::as_u64(&zero), None);
    assert_eq!(Number::as_i64(&zero), Some(0));
}

#[test]
fn a_fraction_has_no_integer_form() {
    let n = number("1.5");
    assert_eq!(Number::as_u32(&n), None);
    assert_eq!(Number::as_u64(&n), None);
    assert_eq!(Number::as_i32(&n), None);
    assert_eq!(Number::as_i64(&n), None);
    assert_eq!(n.buffer().as_f64_lossy(), 1.5);
    let e = number("1e2");
    assert_eq!(Number::as_u64(&e), None);
    let node: MetaValue<u32> = MetaValue::number(number("1.5"), 0);
    assert_eq!(node.as_i32(), None);
    assert_eq!(node.as_i64(), None);
}

#[test]
fn integer_coercions_respect_the_bounds() {
    assert_eq!(Number::as_u32(&number("4294967295")), Some(u32::MAX));
    assert_eq!(Number::as_u32(&number("4294967296")), None);
    assert_eq!(Number::as_u64(&number("4294967296")), Some(4294967296));
    assert_eq!(Number::as_u64(&number("18446744073709551615")), Some(u64::MAX));
    assert_eq!(Number::as_u64(&number("18446744073709551616")), None);
    assert_eq!(Number::as_i64(&number("18446744073709551615")), None);
    assert_eq!(Number::as_i32(&number("2147483647")), Some(i32::MAX));
    assert_eq!(Number::as_i32(&number("2147483648")), None);
    assert_eq!(Number::as_i32(&number("-2147483648")), Some(i32::MIN));
    assert_eq!(Number::as_i32(&number("-2147483649")), None);
    assert_eq!(Number::as_i64(&number("-9223372036854775808")), Some(i64::MIN));
    assert_eq!(Number::as_i64(&number("-9223372036854775809")), None);
    assert_eq!(Number::as_u64(&number("0")), Some(0));
    assert_eq!(Number::as_i32(&number("0")), Some(0));
}

#[test]
fn coercions_of_a_node_that_is_no_number_are_absent() {
    let s: MetaValue<u32> = MetaValue::string(SmallString::new("12"), 0);
    assert_eq!(s.as_u32(), None);
    assert_eq!(s.as_u64(), None);
    assert_eq!(s.as_i32(), None);
    assert_eq!(s.as_i64(), None);
    assert!(s.as_number().is_none());
    assert_eq!(s.as_bool(), None);
}

#[test]
fn zero_is_zero_in_every_integer_type() {
    assert_eq!(Zero.as_u32(), Some(0));
    assert_eq!(Zero.as_u64(), Some(0));
    assert_eq!(Zero.as_i32(), Some(0));
    assert_eq!(Zero.as_i64(), Some(0));
    assert!(Zero == Zero);
    assert!(Zero.is_same(&Zero));
    assert_eq!(Zero.compare(&Zero), Some(Order::Equal));
}

#[test]
fn clone_keeps_content_and_metadata() {
    let a = sample_a(0);
    let c = a.clone();
    assert!(a == c);
    assert_eq!(*c.metadata(), 0);
    let o = c.as_object().unwrap();
    assert_eq!(*generic_json::Key::metadata(o.entry(0).unwrap().0), 5);
    assert_eq!(*o.get("b").unwrap().metadata(), 4);
}

#[test]
fn the_feed_of_a_node_is_that_of_its_tree() {
    let null: MetaValue<u32> = MetaValue::null(7);
    assert_eq!(node_feed(&null), vec![0u8]);
    let yes: MetaValue<u32> = MetaValue::boolean(true, 7);
    assert_eq!(node_feed(&yes), vec![1u8, 1]);
    let no: MetaValue<u32> = MetaValue::boolean(false, 7);
    assert_eq!(node_feed(&no), vec![1u8, 0]);
    let twelve: MetaValue<u32> = MetaValue::number(number("12"), 7);
    assert_eq!(node_feed(&twelve), vec![2u8, 2, 0, 0, 0, 0, 0, 0, 0, b'1', b'2']);
    let text: MetaValue<u32> = MetaValue::string(SmallString::new("h\u{e9}"), 7);
    assert_eq!(node_feed(&text), vec![3u8, 3, 0, 0, 0, 0, 0, 0, 0, b'h', 0xc3, 0xa9]);
}

#[test]
fn the_feed_of_a_collection_counts_and_lists_its_parts() {
    let items = vec![MetaValue::boolean(true, 1u32), MetaValue::null(2u32)];
    assert_eq!(array_feed(&items), vec![4u8, 2, 0, 0, 0, 0, 0, 0, 0, 1, 1, 0]);
    let empty: Vec<MetaValue<u32>> = Vec::new();
    assert_eq!(array_feed(&empty), vec![4u8, 0, 0, 0, 0, 0, 0, 0, 0]);
    let mut object: Object<u32> = Object::new();
    object.insert(Key::new("b", 1), MetaValue::null(0));
    object.insert(Key::new("a", 2), MetaValue::boolean(false, 0));
    let expected = vec![
        5u8, 2, 0, 0, 0, 0, 0, 0, 0, 1, 0, 0, 0, 0, 0, 0, 0, b'a', 1, 0, 1, 0, 0, 0, 0, 0, 0, 0,
        b'b', 0,
    ];
    assert_eq!(object_feed(&object), expected);
    let node: MetaValue<u32> = MetaValue::object(object, 9);
    assert_eq!(node_feed(&node), expected);
    let array: MetaValue<u32> = MetaValue::array(items, 9);
    assert_eq!(node_feed(&array), vec![4u8, 2, 0, 0, 0, 0, 0, 0, 0, 1, 1, 0]);
}

#[test]
fn metadata_takes_no_part_in_the_feed() {
    assert_eq!(node_feed(&sample_a(0)), node_feed(&sample_a(100)));
    assert_eq!(node_feed(&sample_a(0)), node_feed(&sample_b(false)));
    assert!(node_feed(&sample_a(0)) != node_feed(&sample_b(true)));
    assert_eq!(digest(&sample_a(0)), digest(&sample_b(false)));
    assert!(digest(&sample_a(0)) != digest(&sample_b(true)));
    let object = |m: u32| {
        let mut o: Object<u32> = Object::new();
        o.insert(Key::new("k", m), MetaValue::null(m));
        o
    };
    assert_eq!(digest(&object(1)), digest(&object(2)));
}

#[test]
fn a_literal_is_made_from_text_only_where_it_is_a_number() {
    assert!(Literal::parse("12").is_some());
    assert!(Literal::parse("-0.5e+3").is_some());
    assert!(Literal::parse("").is_none());
    assert!(Literal::parse("01").is_none());
    assert!(Literal::parse("1.").is_none());
    assert!(Literal::parse("abc").is_none());
    assert_eq!(Literal::parse("1.50").unwrap().as_bytes(), b"1.50");
    let buffer = json_number::NumberBuf::new(b"7".to_vec()).unwrap();
    assert_eq!(Literal::new(buffer).as_bytes(), b"7");
    assert_eq!(number("7").buffer().as_str(), "7");
}

#[test]
fn a_literal_made_from_an_integer_is_that_integer() {
    assert_eq!(Literal::from_u64(0).as_bytes(), b"0");
    assert_eq!(Literal::from_u64(907).as_bytes(), b"907");
    assert_eq!(Literal::from_u64(u64::MAX).as_bytes(), b"18446744073709551615");
    assert_eq!(Literal::from_u64(u64::MAX).as_u64(), Some(u64::MAX));
    assert_eq!(Literal::from_u64(1 << 53).as_u64(), Some(9007199254740992));
    assert_eq!(Literal::from_i64(-5).as_bytes(), b"-5");
    assert_eq!(Literal::from_i64(-5).as_i64(), Some(-5));
    assert_eq!(Literal::from_i64(-5).as_u64(), None);
    assert_eq!(Literal::from_i64(i64::MIN).as_bytes(), b"-9223372036854775808");
    assert_eq!(Literal::from_i64(i64::MIN).as_i64(), Some(i64::MIN));
    assert_eq!(Literal::from_i64(12).as_u32(), Some(12));
}

#[test]
fn a_clone_of_a_literal_holds_the_same_bytes() {
    let n = number("12.50");
    let c = n.clone();
    assert_eq!(c.as_bytes(), b"12.50");
    assert!(c == n);
    assert!(n != number("12.5"));
    assert_eq!(n.order_to(&number("12.5")), Order::Greater);
    assert_eq!(digest(&n), digest(&c));
    let v: Value<MetaValue<u32>> = Value::Number(number("3"));
    let w = v.clone();
    assert_eq!(w.as_number().unwrap().as_bytes(), b"3");
    assert_eq!(v.as_value_ref().cloned().as_number().unwrap().as_bytes(), b"3");
}

#[test]
fn plain_values_convert_into_values() {
    let n: Value<MetaValue<u32>> = Value::from(5u64);
    assert_eq!(n.as_number().unwrap().as_bytes(), b"5");
    let m: Value<MetaValue<u32>> = Value::from(-17i32);
    assert_eq!(m.as_number().unwrap().as_bytes(), b"-17");
    assert_eq!(m.as_number().unwrap().as_i64(), Some(-17));
    let b: Value<MetaValue<u32>> = Value::from(200u8);
    assert_eq!(b.as_number().unwrap().as_u32(), Some(200));
    let z: Value<MetaValue<u32>> = Value::from(0usize);
    assert_eq!(z.as_number().unwrap().as_bytes(), b"0");
    let s: Value<MetaValue<u32>> = Value::from("text");
    assert_eq!(s.as_str(), Some("text"));
    let t: Value<MetaValue<u32>> = Value::from(String::from("owned"));
    assert_eq!(t.as_str(), Some("owned"));
    assert_eq!(Literal::from(i64::MIN).as_bytes(), b"-9223372036854775808");
    assert_eq!(Literal::from(65535u16).as_bytes(), b"65535");
    assert_eq!(Literal::from(-128i8).as_i32(), Some(-128));
    assert_eq!(SmallString::from("a").as_str(), "a");
    assert_eq!(SmallString::from(String::from("a longer text than sixteen bytes")).as_str(), "a longer text than sixteen bytes");
}

#[test]
fn a_key_hands_out_its_text() {
    let k = Key::new("name", 3u32);
    let as_ref: &str = k.as_ref();
    assert_eq!(as_ref, "name");
    let borrowed: &str = std::borrow::Borrow::borrow(&k);
    assert_eq!(borrowed, "name");
}

use generic_json::metavalue::Key;
use generic_json::metavalue::Object;
use generic_json::Json;
use generic_json::JsonNew;
use generic_json::Literal;
use generic_json::MetaValue;
use generic_json::SmallString;
use generic_json::Tag;
use generic_json::Value;
use generic_json::ValueMut;
use generic_json::ValueRef;

type Node = MetaValue<u32>;

fn number(text: &str) -> Literal {
    Literal::parse(text).unwrap()
}

fn six_values() -> Vec<Value<Node>> {
    let mut object = Object::new();
    object.insert(Key::new("k", 0), Node::null(0));
    vec![
        Value::Null,
        Value::Boolean(true),
        Value::Number(number("12")),
        Value::String(SmallString::new("text")),
        Value::Array(vec![Node::null(0)]),
        Value::Object(object),
    ]
}

#[test]
fn value_is_of_exactly_one_variant() {
    let values = six_values();
    for (i, v) in values.iter().enumerate() {
        let flags = [
            v.is_null(),
            v.is_bool(),
            v.is_number(),
            v.is_string(),
            v.is_array(),
            v.is_object(),
        ];
        for (j, flag) in flags.iter().enumerate() {
            assert_eq!(*flag, i == j);
        }
    }
}

#[test]
fn value_classification_matches_extraction() {
    for v in six_values().iter() {
        assert_eq!(v.is_bool(), v.as_bool().is_some());
        assert_eq!(v.is_number(), v.as_number().is_some());
        assert_eq!(v.is_string(), v.as_str().is_some());
        assert_eq!(v.is_array(), v.as_array().is_some());
        assert_eq!(v.is_object(), v.as_object().is_some());
    }
}

#[test]
fn value_ref_classification_matches_extraction() {
    for v in six_values().iter() {
        let r = v.as_value_ref();
        assert_eq!(r.is_null(), v.is_null());
        assert_eq!(r.is_bool(), r.as_bool().is_some());
        assert_eq!(r.is_bool(), v.is_bool());
        assert_eq!(r.is_number(), r.as_number().is_some());
        assert_eq!(r.is_number(), v.is_number());
        assert_eq!(r.is_string(), r.as_str().is_some());
        assert_eq!(r.is_string(), v.is_string());
        assert_eq!(r.is_array(), r.as_array().is_some());
        assert_eq!(r.is_array(), v.is_array());
        assert_eq!(r.is_object(), r.as_object().is_some());
        assert_eq!(r.is_object(), v.is_object());
    }
}

#[test]
fn value_mut_classification_matches_extraction() {
    for v in six_values().iter_mut() {
        let tag = v.tag();
        let mut m = v.as_value_mut();
        assert_eq!(m.is_null(), tag == Tag::Null);
        assert_eq!(m.is_bool(), m.as_bool().is_some());
        assert_eq!(m.is_bool(), tag == Tag::Boolean);
        assert_eq!(m.is_number(), m.as_number().is_some());
        assert_eq!(m.is_number(), tag == Tag::Number);
        assert_eq!(m.is_string(), m.as_str().is_some());
        assert_eq!(m.is_string(), tag == Tag::String);
        assert_eq!(m.is_array(), m.as_array().is_some());
        assert_eq!(m.is_array(), m.as_array_mut().is_some());
        assert_eq!(m.is_array(), tag == Tag::Array);
        assert_eq!(m.is_object(), m.as_object().is_some());
        assert_eq!(m.is_object(), m.as_object_mut().is_some());
        assert_eq!(m.is_object(), tag == Tag::Object);
    }
}

#[test]
fn a_boolean_view_is_a_boolean_and_no_number() {
    let v: Value<Node> = Value::Boolean(false);
    assert!(v.as_value_ref().is_bool());
    assert!(!v.as_value_ref().is_number());
    let n: Value<Node> = Value::Number(number("1"));
    assert!(!n.as_value_ref().is_bool());
    assert!(n.as_value_ref().is_number());
}

#[test]
fn extraction_returns_the_payload() {
    let values = six_values();
    assert_eq!(values[1].as_bool(), Some(true));
    assert_eq!(values[2].as_number().unwrap().as_bytes(), b"12");
    assert_eq!(values[3].as_str(), Some("text"));
    assert_eq!(values[4].as_array().unwrap().len(), 1);
    assert_eq!(values[0].as_bool(), None);
    assert_eq!(values[0].as_str(), None);
    let r = values[3].as_value_ref();
    assert_eq!(r.as_str(), Some("text"));
    assert_eq!(values[1].as_value_ref().as_bool(), Some(true));
}

#[test]
fn tags_are_ranked_in_the_fixed_order() {
    let tags: Vec<u8> = six_values().iter().map(|v| v.tag().index()).collect();
    assert_eq!(tags, vec![0, 1, 2, 3, 4, 5]);
    assert_eq!(Tag::Null.index(), 0);
    assert_eq!(Tag::Object.index(), 5);
}

#[test]
fn take_leaves_null_behind() {
    let mut v: Value<Node> = Value::Boolean(true);
    let taken = v.take();
    assert!(v.is_null());
    assert_eq!(taken.as_bool(), Some(true));
}

#[test]
fn default_value_is_null() {
    let v: Value<Node> = Value::default();
    assert!(v.is_null());
}

#[test]
fn with_attaches_the_metadata() {
    let v: Value<Node> = Value::Boolean(true);
    let node = v.with(7);
    assert_eq!(node.as_bool(), Some(true));
    assert_eq!(*node.metadata(), 7);
}

#[test]
fn with_default_attaches_the_default_metadata() {
    let v: Value<Node> = Value::String(SmallString::new("s"));
    let node = v.with_default();
    assert_eq!(node.as_str(), Some("s"));
    assert_eq!(*node.metadata(), 0);
}

#[test]
fn from_unit_and_bool_and_node() {
    let n: Value<Node> = Value::from(());
    assert!(n.is_null());
    let b: Value<Node> = Value::from(true);
    assert_eq!(b.as_bool(), Some(true));
    let v: Value<Node> = Value::from(Node::boolean(false, 3));
    assert_eq!(v.as_bool(), Some(false));
}

#[test]
fn mutable_extraction_edits_the_value() {
    let mut v: Value<Node> = Value::Array(Vec::new());
    v.as_array_mut().unwrap().push(Node::null(1));
    assert_eq!(v.as_array().unwrap().len(), 1);
    assert!(v.as_object_mut().is_none());
    let mut o: Value<Node> = Value::Object(Object::new());
    o.as_object_mut().unwrap().insert(Key::new("a", 1), Node::null(2));
    assert!(o.as_array_mut().is_none());
    match o.as_value_ref() {
        ValueRef::Object(obj) => assert!(!generic_json::Mapping::is_empty(obj)),
        _ => panic!("an object is shown as an object"),
    }
}

#[test]
fn mutable_view_writes_through() {
    let mut v: Value<Node> = Value::Boolean(false);
    match v.as_value_mut() {
        ValueMut::Boolean(b) => *b = true,
        _ => panic!("a boolean is shown as a boolean"),
    }
    assert_eq!(v.as_bool(), Some(true));
    let mut a: Value<Node> = Value::Array(Vec::new());
    let mut view = a.as_value_mut();
    view.as_array_mut().unwrap().push(Node::null(0));
    assert_eq!(view.as_array().unwrap().len(), 1);
    assert_eq!(a.as_array().unwrap().len(), 1);
}

#[test]
fn cloned_copies_the_payload() {
    let values = six_values();
    for v in values.iter() {
        let c = v.as_value_ref().cloned();
        assert!(c == *v);
        assert_eq!(c.tag(), v.tag());
        let d = v.clone();
        assert!(d == *v);
    }
    let mut s: Value<Node> = Value::String(SmallString::new("abc"));
    let c = s.as_value_mut().cloned();
    assert_eq!(c.as_str(), Some("abc"));
}

#[test]
fn value_equals_plain_values() {
    let s: Value<Node> = Value::String(SmallString::new("abc"));
    assert!(s == "abc");
    assert!(!(s == "abd"));
    assert!(s == String::from("abc"));
    assert!(!(s == true));
    let b: Value<Node> = Value::Boolean(true);
    assert!(b == true);
    assert!(!(b == false));
    assert!(!(b == "true"));
}

#[test]
fn object_remove_takes_the_entry_out() {
    let mut o: Object<u32> = Object::new();
    o.insert(Key::new("a", 1), Node::boolean(true, 10));
    o.insert(Key::new("b", 2), Node::boolean(false, 20));
    o.insert(Key::new("c", 3), Node::null(30));
    let gone = o.remove("b");
    assert_eq!(gone.unwrap().as_bool(), Some(false));
    assert_eq!(generic_json::Mapping::len(&o), 2);
    assert!(generic_json::Mapping::get(&o, "b").is_none());
    assert!(generic_json::Mapping::get(&o, "a").is_some());
    assert!(generic_json::Mapping::get(&o, "c").is_some());
    assert!(o.remove("b").is_none());
    assert!(o.remove("zz").is_none());
    assert_eq!(generic_json::Mapping::len(&o), 2);
    let (key, _) = generic_json::Mapping::entry(&o, 1).unwrap();
    assert_eq!(generic_json::Key::as_str(key), "c");
}

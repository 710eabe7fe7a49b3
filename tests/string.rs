use istring::IString;
use std::collections::hash_map::DefaultHasher;
use std::hash::{Hash, Hasher};
use std::rc::Rc;
use yew::virtual_dom::AttrValue;

fn hash_of(s: &IString) -> u64 {
    let mut h = DefaultHasher::new();
    s.hash(&mut h);
    h.finish()
}

#[test]
fn string_cmp() {
    assert_eq!(IString::from("foo"), "foo");
    assert_eq!(IString::from("foo"), String::from("foo"));
    assert_eq!(IString::from("foo"), &String::from("foo"));
}

#[test]
fn static_string() {
    const _STRING: IString = IString::Static("foo");
}

#[test]
fn literal_compares_equal_to_itself() {
    let s = IString::from("foo");
    assert!(s == "foo");
    assert!(s == *"foo");
    assert!(s != "fo");
    assert!(s != "food");
}

#[test]
fn owned_equals_literal() {
    let owned = IString::from(String::from("foo"));
    assert!(matches!(owned, IString::Rc(_)));
    assert_eq!(owned, IString::from("foo"));
    assert_eq!(IString::from("foo"), owned);
    assert_eq!(owned, String::from("foo"));
    assert_eq!(owned, &String::from("foo"));
}

#[test]
fn variants_differ_text_decides() {
    let a = IString::Static("bar");
    let b = IString::Rc(Rc::from("bar"));
    assert_eq!(a, b);
    assert_eq!(b, a);
    assert_ne!(a, IString::Rc(Rc::from("baz")));
}

#[test]
fn default_is_empty_literal() {
    let d = IString::default();
    assert_eq!(d, "");
    assert!(matches!(d, IString::Static("")));
    assert_ne!(d, " ");
}

#[test]
fn equal_values_hash_alike() {
    let a = IString::from("foo");
    let b = IString::from(String::from("foo"));
    assert_eq!(hash_of(&a), hash_of(&b));
    let mut h = DefaultHasher::new();
    "foo".hash(&mut h);
    assert_eq!(hash_of(&a), h.finish());
}

#[test]
fn clone_shares_the_buffer() {
    let original = IString::Rc(Rc::from("bar"));
    let copy = original.clone();
    assert_eq!(copy, original);
    match (&original, &copy) {
        (IString::Rc(x), IString::Rc(y)) => {
            assert!(Rc::ptr_eq(x, y));
            assert_eq!(Rc::strong_count(x), 2);
        }
        _ => panic!("clone changed the variant"),
    }
    drop(original);
    assert_eq!(copy.as_str(), "bar");
}

#[test]
fn clone_of_static_stays_static() {
    let original = IString::from("foo");
    let copy = original.clone();
    assert!(matches!(copy, IString::Static("foo")));
}

#[test]
fn independent_shared_values() {
    let a = IString::from(String::from("bar"));
    let b = IString::from(String::from("bar"));
    assert_eq!(a, b);
    drop(a);
    assert_eq!(b.to_string(), "bar");
    assert_eq!(b.as_str(), "bar");
}

#[test]
fn from_shared_buffer_keeps_it() {
    let buf: Rc<str> = Rc::from("baz");
    let s = IString::from(buf.clone());
    match &s {
        IString::Rc(x) => assert!(Rc::ptr_eq(x, &buf)),
        _ => panic!("expected the shared variant"),
    }
    assert_eq!(s, "baz");
}

#[test]
fn attr_value_round_trip() {
    let from_static = IString::from(AttrValue::Static("foo"));
    assert!(matches!(from_static, IString::Static("foo")));
    let buf: Rc<str> = Rc::from("qux");
    let from_rc = IString::from(AttrValue::Rc(buf.clone()));
    match &from_rc {
        IString::Rc(x) => assert!(Rc::ptr_eq(x, &buf)),
        _ => panic!("expected the shared variant"),
    }
    match from_rc.to_attr_value() {
        AttrValue::Rc(x) => assert!(Rc::ptr_eq(&x, &buf)),
        _ => panic!("expected the shared attribute value"),
    }
    assert!(matches!(from_static.to_attr_value(), AttrValue::Static("foo")));
}

#[test]
fn to_string_copies_text() {
    assert_eq!(IString::from("héllo").to_string(), String::from("héllo"));
    assert_eq!(IString::default().to_string(), String::new());
}

use autorust_openapi::ordered::OrderedMap;
use autorust_openapi::util::{default_as_true, is_false, is_true};

#[test]
fn a_new_mapping_is_empty() {
    let m: OrderedMap<u32> = OrderedMap::new();
    assert_eq!(m.len(), 0);
    assert!(m.is_empty());
    assert_eq!(m.get("a"), None);
}

#[test]
fn keys_keep_the_order_of_insertion() {
    let mut m = OrderedMap::new();
    assert_eq!(m.insert("zebra".to_string(), 1), None);
    assert_eq!(m.insert("apple".to_string(), 2), None);
    assert_eq!(m.insert("mango".to_string(), 3), None);
    assert_eq!(m.len(), 3);
    assert!(!m.is_empty());
    assert_eq!(m.key_at(0), "zebra");
    assert_eq!(m.key_at(1), "apple");
    assert_eq!(m.key_at(2), "mango");
    assert_eq!(*m.value_at(0), 1);
    assert_eq!(*m.value_at(1), 2);
    assert_eq!(*m.value_at(2), 3);
    assert_eq!(m.get("apple"), Some(&2));
    assert_eq!(m.get("pear"), None);
    assert!(m.contains_key("mango"));
    assert!(!m.contains_key("pear"));
}

#[test]
fn a_key_that_is_set_again_keeps_its_place() {
    let mut m = OrderedMap::new();
    m.insert("a".to_string(), 1);
    m.insert("b".to_string(), 2);
    m.insert("c".to_string(), 3);
    assert_eq!(m.insert("b".to_string(), 20), Some(2));
    assert_eq!(m.len(), 3);
    assert_eq!(m.key_at(0), "a");
    assert_eq!(m.key_at(1), "b");
    assert_eq!(m.key_at(2), "c");
    assert_eq!(m.get("b"), Some(&20));
    assert_eq!(*m.value_at(1), 20);
}

#[test]
fn a_copy_holds_the_same_entries() {
    let mut m = OrderedMap::new();
    m.insert("x".to_string(), "1".to_string());
    m.insert("y".to_string(), "2".to_string());
    let copy = m.clone();
    assert_eq!(copy, m);
    assert_eq!(copy.key_at(0), "x");
    assert_eq!(copy.key_at(1), "y");
    m.insert("z".to_string(), "3".to_string());
    assert_eq!(copy.len(), 2);
    assert_ne!(copy, m);
}

#[test]
fn the_default_mapping_is_empty() {
    let m: OrderedMap<String> = Default::default();
    assert_eq!(m.len(), 0);
}

#[test]
fn predicates_on_booleans() {
    assert!(is_false(&false));
    assert!(!is_false(&true));
    assert!(is_true(&true));
    assert!(!is_true(&false));
    assert!(default_as_true());
}

#[test]
fn mappings_with_the_same_entries_in_another_order_differ() {
    let mut a = OrderedMap::new();
    a.insert("x".to_string(), 1);
    a.insert("y".to_string(), 2);
    let mut b = OrderedMap::new();
    b.insert("y".to_string(), 2);
    b.insert("x".to_string(), 1);
    assert_ne!(a, b);
    let mut c = OrderedMap::new();
    c.insert("x".to_string(), 1);
    c.insert("y".to_string(), 2);
    assert_eq!(a, c);
    c.insert("y".to_string(), 3);
    assert_ne!(a, c);
    let mut d = OrderedMap::new();
    d.insert("y".to_string(), 1);
    d.insert("x".to_string(), 2);
    assert_ne!(a, d);
}

use zarrs::decimal::to_decimal_string;
use zarrs::store_key::{data_key, NodePath, StoreKey};

#[test]
fn store_key_validity() {
    assert!(StoreKey::new("c/0").is_ok());
    assert!(StoreKey::new("").is_err());
    assert!(StoreKey::new("/c/0").is_err());
    assert_eq!(StoreKey::new("a.b").unwrap().as_str(), "a.b");
}

#[test]
fn node_path_validity() {
    assert_eq!(NodePath::root().as_str(), "/");
    assert!(NodePath::new("/group/array").is_ok());
    assert!(NodePath::new("group").is_err());
    assert!(NodePath::new("/group/").is_err());
    assert!(NodePath::new("//group").is_err());
    assert!(NodePath::new("").is_err());
}

#[test]
fn data_key_under_a_node() {
    let path = NodePath::new("/group/array").unwrap();
    let chunk = StoreKey::new("c/0/1").unwrap();
    assert_eq!(data_key(&path, &chunk).as_str(), "group/array/c/0/1");
    assert_eq!(data_key(&NodePath::root(), &chunk).as_str(), "c/0/1");
}

#[test]
fn decimal_strings() {
    assert_eq!(to_decimal_string(0), "0");
    assert_eq!(to_decimal_string(9), "9");
    assert_eq!(to_decimal_string(10), "10");
    assert_eq!(to_decimal_string(1203), "1203");
    assert_eq!(to_decimal_string(u64::MAX), "18446744073709551615");
}

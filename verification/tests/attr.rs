use std::sync::Arc;

use starlark_dialect::attr::testing::AttributeExt;
use starlark_dialect::attr::Attribute;
use starlark_dialect::attr::CoercedValue;

#[test]
fn new_keeps_its_three_parts() {
    let a = Attribute::new(Some(Arc::new(5i64)), "how many", "int");
    assert_eq!(*a.coercer(), "int");
    assert_eq!(a.default(), Some(&Arc::new(5i64)));
    assert_eq!(a.doc(), "how many");
}

#[test]
fn new_without_default() {
    let a: Attribute<u8, String> = Attribute::new(None, "", 3);
    assert_eq!(a.default(), None);
    assert_eq!(a.doc(), "");
    assert_eq!(*a.coercer(), 3);
}

#[test]
fn default_is_shared_not_copied() {
    let value = Arc::new("x".to_owned());
    let a = Attribute::new(Some(value.clone()), "doc", ());
    assert!(Arc::ptr_eq(a.default().unwrap(), &value));
}

#[test]
fn testing_new_has_no_documentation() {
    let a: Attribute<&str, i64> = Attribute::testing_new(Some(Arc::new(1)), "int");
    assert_eq!(a.doc(), "");
    assert_eq!(a.default(), Some(&Arc::new(1)));
    assert_eq!(*a.coercer(), "int");
    assert_eq!(a, Attribute::new(Some(Arc::new(1)), "", "int"));
}

#[test]
fn coerced_value_tells_custom_from_default() {
    let given: CoercedValue<u8> = CoercedValue::Custom(4);
    let missing: CoercedValue<u8> = CoercedValue::Default;
    assert_eq!(given, CoercedValue::Custom(4));
    assert_ne!(given, missing);
}

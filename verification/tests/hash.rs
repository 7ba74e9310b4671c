use rune::hash::{Protocol, FIELD_FUNCTION_HASH, INSTANCE_FUNCTION_HASH};
use rune::module::ModuleAssociatedKind;

#[test]
fn instance_function_hash() {
    let h = rune::hash::Hash::instance_function(rune::hash::Hash(0x0f), rune::hash::Hash(0xf0));
    assert_eq!(h.0, INSTANCE_FUNCTION_HASH ^ 0xff);
    assert_eq!(h.0, 0x5ea77ffbcdf5f302 ^ 0xff);
}

#[test]
fn field_function_hash() {
    let protocol = Protocol { name: "get", hash: rune::hash::Hash(0x100) };
    let h = rune::hash::Hash::field_fn(protocol, rune::hash::Hash(0x0f), rune::hash::Hash(0xf0));
    assert_eq!(h.0, FIELD_FUNCTION_HASH ^ 0x1ff);
    assert_eq!(h.0, 0xab53b6a7a53c757e ^ 0x1ff);
}

#[test]
fn associated_kind_hash() {
    let protocol = Protocol { name: "get", hash: rune::hash::Hash(0x100) };
    let t = rune::hash::Hash(0x1234);
    let f = rune::hash::Hash::of_str("len");
    assert_eq!(
        ModuleAssociatedKind::Instance.hash(t, f),
        rune::hash::Hash::instance_function(t, f)
    );
    assert_eq!(
        ModuleAssociatedKind::FieldFn(protocol).hash(t, f),
        rune::hash::Hash::field_fn(protocol, t, f)
    );
    assert_ne!(ModuleAssociatedKind::Instance.hash(t, f), ModuleAssociatedKind::FieldFn(protocol).hash(t, f));
}

#[test]
fn distinct_names_hash_differently() {
    let t = rune::hash::Hash(0x1234);
    let len = rune::hash::Hash::of_str("len");
    let push = rune::hash::Hash::of_str("push");
    assert_eq!(len, rune::hash::Hash::of_str("len"));
    assert_ne!(len, push);
    assert_ne!(
        rune::hash::Hash::instance_function(t, len),
        rune::hash::Hash::instance_function(t, push)
    );
}

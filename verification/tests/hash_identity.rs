
#[test]
fn type_and_function_hashes_agree() {
    let path = ["std", "ops", "Range"];
    assert_eq!(runestick::hash::Hash::of_type(&path), runestick::hash::Hash::function(&path));
}

#[test]
fn type_hash_is_stable_across_calls() {
    let a = runestick::hash::Hash::of_type(&["std", "ops", "Range"]);
    let b = runestick::hash::Hash::of_type(&["std", "ops", "Range"]);
    assert_eq!(a, b);
}

#[test]
fn tuple_match_uses_its_own_keyspace() {
    let path = ["std", "ops", "Range"];
    assert_ne!(runestick::hash::Hash::of_type(&path), runestick::hash::Hash::tuple_match(&path));
}

#[test]
fn object_keys_order_matters() {
    let ab = runestick::hash::Hash::object_keys(&["a", "b"]);
    let ba = runestick::hash::Hash::object_keys(&["b", "a"]);
    assert_ne!(ab, ba);
    assert_eq!(ab, runestick::hash::Hash::object_keys(&["a", "b"]));
    assert_eq!(ba, runestick::hash::Hash::object_keys(&["b", "a"]));
}

#[test]
fn instance_function_is_deterministic() {
    let ty = runestick::hash::Hash::of_type(&["Range"]);
    let name = runestick::hash::Hash::of(b"iter");
    assert_eq!(runestick::hash::Hash::instance_function(ty, name), runestick::hash::Hash::instance_function(ty, name));
    assert_ne!(runestick::hash::Hash::instance_function(ty, name), runestick::hash::Hash::instance_function(name, ty));
}

#[test]
fn global_module_is_zero() {
    assert_eq!(runestick::hash::Hash::global_module().0, 0);
}

#[test]
fn distinct_paths_hash_differently() {
    assert_ne!(
        runestick::hash::Hash::of_type(&["std", "ops", "Range"]),
        runestick::hash::Hash::of_type(&["std", "ops", "RangeFrom"])
    );
    assert_ne!(runestick::hash::Hash::of_type(&["ab"]), runestick::hash::Hash::of_type(&["a", "b"]));
}

#[test]
fn hashes_render_as_hex() {
    assert_eq!(runestick::hash::Hash(0).display_string(), "0x0");
    assert_eq!(runestick::hash::Hash(255).display_string(), "0xff");
    assert_eq!(runestick::hash::Hash(0xdead_beef).display_string(), "0xdeadbeef");
    assert_eq!(runestick::hash::Hash(u64::MAX).display_string(), "0xffffffffffffffff");
}

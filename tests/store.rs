use query_engine::engine::{execute_source, ModuleQuery, SourceQuery};
use query_engine::key::{encode_key, key_hash, MODULE_KIND, SOURCE_KIND};
use query_engine::marker::{id, refl, Id, Is};
use query_engine::store::{ConcreteModule, Fail, Resource};

#[test]
fn source_entry_is_not_a_module() {
    let r = Resource::Source("text".to_string());
    assert!(matches!(r.as_module(7), Err(Fail::InvalidCacheDowncast(7))));
    assert_eq!(r.as_source(7).unwrap(), "text");
}

#[test]
fn module_entry_is_not_a_source() {
    let r = Resource::Module(ConcreteModule("m.rs".to_string(), "body".to_string()));
    assert!(matches!(r.as_source(42), Err(Fail::InvalidCacheDowncast(42))));
    let m = r.as_module(42).unwrap();
    assert_eq!(m.0, "m.rs");
    assert_eq!(m.1, "body");
}

#[test]
fn key_encoding_is_kind_then_utf8() {
    assert_eq!(encode_key(SOURCE_KIND, "ab"), vec![1u8, 97, 98]);
    assert_eq!(encode_key(MODULE_KIND, ""), vec![2u8]);
    assert_eq!(encode_key(SOURCE_KIND, "é"), vec![1u8, 0xc3, 0xa9]);
}

#[test]
fn key_hash_is_deterministic_and_kind_sensitive() {
    assert_eq!(key_hash(SOURCE_KIND, "a.txt"), key_hash(SOURCE_KIND, "a.txt"));
    assert_ne!(key_hash(SOURCE_KIND, "a.txt"), key_hash(MODULE_KIND, "a.txt"));
    let s = SourceQuery::new("a.txt".to_string());
    let m = ModuleQuery::new("a.txt".to_string());
    assert_eq!(s.hash_key(), key_hash(SOURCE_KIND, "a.txt"));
    assert_eq!(m.hash_key(), key_hash(MODULE_KIND, "a.txt"));
    assert_ne!(s.hash_key(), m.hash_key());
}

#[test]
fn key_hash_is_fxhash_of_encoding() {
    let bytes = encode_key(SOURCE_KIND, "a.txt");
    assert_eq!(key_hash(SOURCE_KIND, "a.txt"), fxhash::hash64(bytes.as_slice()));
}

#[test]
fn execute_source_maps_read_outcome() {
    let path = "p.rs".to_string();
    assert_eq!(execute_source(&path, Some("x".to_string())).unwrap(), "x");
    match execute_source(&path, None) {
        Err(Fail::UnboundModule(p)) => assert_eq!(p, "p.rs"),
        other => panic!("expected UnboundModule, got {:?}", other),
    }
}

#[test]
fn markers_are_built() {
    let _: Id<u8> = id::<u8>();
    let _: Is<String, String> = refl::<String>();
}

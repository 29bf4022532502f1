use prosody::config::NumberArg;
use prosody::keyed_state::{
    capacity, descriptor, keyset_limit, parse_kind, parse_payload, read_cache,
    register_state_collection, state_settings, validate_collections, with_capacity, with_def,
    with_keyset, CacheDuration, CollectionDescriptor, CollectionKind, CollectionPayload,
    ReadCache, ReadCacheArg, SecondsArg, StateCollectionConfig, StateOptions, TtlArg,
};

fn collection(name: &str, kind: &str, payload: &str) -> StateCollectionConfig {
    StateCollectionConfig {
        name: name.into(),
        kind: kind.into(),
        payload: payload.into(),
        ttl_seconds: None,
        read_uncommitted: None,
        published: None,
        keyset_limit: None,
        capacity: None,
    }
}

#[test]
fn kinds_and_payloads() {
    assert_eq!(parse_kind(0, "value"), Ok(CollectionKind::Value));
    assert_eq!(parse_kind(0, "map"), Ok(CollectionKind::OrderedMap));
    assert_eq!(parse_kind(0, "deque"), Ok(CollectionKind::Deque));
    assert_eq!(
        parse_kind(2, "set"),
        Err("state_collections[2].kind: expected \"value\", \"map\", or \"deque\", got \"set\"".to_string())
    );
    assert_eq!(parse_payload(0, "json"), Ok(CollectionPayload::Json));
    assert_eq!(parse_payload(0, "message"), Ok(CollectionPayload::Message));
    assert_eq!(
        parse_payload(1, "xml"),
        Err("state_collections[1].payload: expected \"json\" or \"message\", got \"xml\"".to_string())
    );
}

#[test]
fn unknown_token_is_quoted_and_escaped() {
    assert_eq!(
        parse_kind(0, "a\"b"),
        Err("state_collections[0].kind: expected \"value\", \"map\", or \"deque\", got \"a\\\"b\"".to_string())
    );
}

#[test]
fn descriptor_builders() {
    let d = descriptor("carts", CollectionKind::OrderedMap, CollectionPayload::Json);
    assert_eq!(d.name, "carts");
    assert_eq!(d.ttl_seconds, None);
    assert!(!d.read_uncommitted);
    let d = with_def(d, Some(60), Some(true), Some(true));
    assert_eq!(d.ttl_seconds, Some(60));
    assert!(d.read_uncommitted);
    assert_eq!(d.published, Some(true));
    let d = with_def(d, None, Some(false), None);
    assert_eq!(d.ttl_seconds, Some(60));
    assert!(d.read_uncommitted);
    assert_eq!(d.published, Some(true));
    let d = with_keyset(d, Some(128));
    assert_eq!(d.keyset_limit, Some(128));
    let d = with_keyset(d, None);
    assert_eq!(d.keyset_limit, Some(128));
    let q = with_capacity(descriptor("recent", CollectionKind::Deque, CollectionPayload::Message), Some(5));
    assert_eq!(q.capacity, Some(5));
}

#[test]
fn keyset_and_capacity_apply_to_their_kinds_only() {
    assert_eq!(keyset_limit(None, CollectionKind::Value, 0), Ok(None));
    assert_eq!(keyset_limit(Some(NumberArg::Whole(4096)), CollectionKind::OrderedMap, 0), Ok(Some(4096)));
    assert_eq!(
        keyset_limit(Some(NumberArg::Whole(4097)), CollectionKind::OrderedMap, 3),
        Err("state_collections[3].keyset_limit: must be a whole number in 0..=4096".to_string())
    );
    assert_eq!(
        keyset_limit(Some(NumberArg::Whole(1)), CollectionKind::Deque, 0),
        Err("state_collections[0].keyset_limit: only valid for map collections".to_string())
    );
    assert_eq!(capacity(Some(NumberArg::Whole(10)), CollectionKind::Deque, 0), Ok(Some(10)));
    assert_eq!(
        capacity(Some(NumberArg::Whole(0)), CollectionKind::Deque, 1),
        Err("state_collections[1].capacity: must be a whole number in 1..=4294967295".to_string())
    );
    assert_eq!(
        capacity(Some(NumberArg::Whole(3)), CollectionKind::Value, 0),
        Err("state_collections[0].capacity: only valid for deque collections".to_string())
    );
}

#[test]
fn registers_a_valid_collection() {
    let mut c = collection("carts", "map", "json");
    c.ttl_seconds = Some(NumberArg::Whole(3600));
    c.keyset_limit = Some(NumberArg::Whole(64));
    c.published = Some(true);
    let d: CollectionDescriptor = register_state_collection(4, &c).unwrap();
    assert_eq!(d.name, "carts");
    assert_eq!(d.kind, CollectionKind::OrderedMap);
    assert_eq!(d.payload, CollectionPayload::Json);
    assert_eq!(d.ttl_seconds, Some(3600));
    assert_eq!(d.keyset_limit, Some(64));
    assert_eq!(d.capacity, None);
    assert_eq!(d.published, Some(true));
    assert!(!d.read_uncommitted);
}

#[test]
fn registration_errors_name_the_field() {
    assert_eq!(
        register_state_collection(0, &collection("", "value", "json")).unwrap_err(),
        "state_collections[0].name: must not be empty"
    );
    let mut c = collection("x", "value", "json");
    c.ttl_seconds = Some(NumberArg::NotWhole);
    assert_eq!(
        register_state_collection(5, &c).unwrap_err(),
        "state_collections[5].ttl_seconds: must be a whole number in 1..=4294967295"
    );
    let mut c = collection("x", "deque", "message");
    c.published = Some(true);
    assert_eq!(
        register_state_collection(1, &c).unwrap_err(),
        "state_collections[1].published: published readers support JSON collections only"
    );
}

#[test]
fn duplicate_collection_names_are_rejected() {
    let cs = vec![
        collection("a", "value", "json"),
        collection("b", "deque", "json"),
        collection("a", "map", "message"),
    ];
    assert_eq!(
        validate_collections(&cs).unwrap_err(),
        "state_collections[2].name: duplicate collection name \"a\""
    );
}

#[test]
fn collections_register_in_order() {
    let cs = vec![collection("a", "value", "json"), collection("b", "deque", "message")];
    let ds = validate_collections(&cs).unwrap();
    assert_eq!(ds.len(), 2);
    assert_eq!(ds[0].name, "a");
    assert_eq!(ds[1].name, "b");
    assert_eq!(ds[1].kind, CollectionKind::Deque);
    assert_eq!(ds[1].payload, CollectionPayload::Message);
    assert!(validate_collections(&Vec::new()).unwrap().is_empty());
}

#[test]
fn first_invalid_collection_stops_validation() {
    let cs = vec![collection("a", "value", "json"), collection("b", "bag", "json"), collection("a", "value", "json")];
    assert_eq!(
        validate_collections(&cs).unwrap_err(),
        "state_collections[1].kind: expected \"value\", \"map\", or \"deque\", got \"bag\""
    );
}

fn options() -> StateOptions {
    StateOptions {
        cache_dir: None,
        recovery_delay: None,
        cache_size_bytes: None,
        read_cache_size_bytes: None,
        read_cache: None,
    }
}

#[test]
fn state_settings_validate_each_option() {
    let s = state_settings(&options()).unwrap();
    assert_eq!(s.cache_dir, None);
    assert_eq!(s.read_cache_ttl, None);

    let mut o = options();
    o.cache_dir = Some(String::new());
    assert_eq!(state_settings(&o).unwrap_err(), "state_cache_dir: must not be an empty string");

    let mut o = options();
    o.recovery_delay = Some(NumberArg::Whole(0));
    assert_eq!(
        state_settings(&o).unwrap_err(),
        "state_recovery_delay: must be a whole number in 1..=4294967295"
    );

    let mut o = options();
    o.cache_size_bytes = Some(0);
    assert_eq!(state_settings(&o).unwrap_err(), "state_cache_size_bytes: must be greater than 0");

    let mut o = options();
    o.read_cache_size_bytes = Some(0);
    assert_eq!(state_settings(&o).unwrap_err(), "state_read_cache_size_bytes: must be greater than 0");

    let mut o = options();
    o.read_cache = Some(ReadCacheArg::Disabled(true));
    assert_eq!(
        state_settings(&o).unwrap_err(),
        "state_read_cache: true is ambiguous; use a duration or false"
    );

    let mut o = options();
    o.read_cache = Some(ReadCacheArg::Ttl(TtlArg::NotPositive));
    assert_eq!(state_settings(&o).unwrap_err(), "state_read_cache: duration must be greater than 0");

    let ttl = CacheDuration { secs: 2, nanos: 500_000_000 };
    let o = StateOptions {
        cache_dir: Some("/tmp/state".into()),
        recovery_delay: Some(NumberArg::Whole(30)),
        cache_size_bytes: Some(1 << 20),
        read_cache_size_bytes: Some(1 << 10),
        read_cache: Some(ReadCacheArg::Ttl(TtlArg::Positive(ttl))),
    };
    let s = state_settings(&o).unwrap();
    assert_eq!(s.cache_dir.as_deref(), Some("/tmp/state"));
    assert_eq!(s.recovery_delay, Some(30));
    assert_eq!(s.cache_size_bytes, Some(1 << 20));
    assert_eq!(s.read_cache_size_bytes, Some(1 << 10));
    assert_eq!(s.read_cache_ttl, Some(Some(ttl)));

    let mut o = options();
    o.read_cache = Some(ReadCacheArg::Disabled(false));
    assert_eq!(state_settings(&o).unwrap().read_cache_ttl, Some(None));
}

#[test]
fn reader_cache_policy() {
    let d = CacheDuration { secs: 1, nanos: 0 };
    assert_eq!(read_cache(None, false), Ok(ReadCache::Inherit));
    assert_eq!(read_cache(None, true), Ok(ReadCache::Disabled));
    assert_eq!(read_cache(Some(SecondsArg::Valid(d)), false), Ok(ReadCache::Ttl(d)));
    assert_eq!(
        read_cache(Some(SecondsArg::Valid(CacheDuration { secs: 0, nanos: 0 })), false),
        Err("read_cache must be finite and non-negative".to_string())
    );
    assert_eq!(
        read_cache(Some(SecondsArg::Valid(CacheDuration { secs: 0, nanos: 1 })), false),
        Ok(ReadCache::Ttl(CacheDuration { secs: 0, nanos: 1 }))
    );
    assert_eq!(
        read_cache(Some(SecondsArg::Invalid), false),
        Err("read_cache must be finite and non-negative".to_string())
    );
    assert_eq!(
        read_cache(Some(SecondsArg::Valid(d)), true),
        Err("read_cache cannot specify a TTL and be disabled".to_string())
    );
}

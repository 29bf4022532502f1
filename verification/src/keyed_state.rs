//! Keyed-state configuration: the client-wide state options, the declared
//! collections registered before subscribe, and per-reader cache policies.
//!
//! Each declared collection is validated over the closed kind × payload
//! matrix and becomes a [`CollectionDescriptor`]; names must be unique within
//! the client.

use crate::config::{debug_quote, debug_text, spec_whole_number, string_result, whole_number_field, NumberArg};
use crate::text::{decimal, format_unsigned, join2, join3};
use vstd::prelude::*;

verus! {

/// The kind of a keyed-state collection.
#[derive(Debug, Clone, Copy, PartialEq, Eq, Structural)]
pub enum CollectionKind {
    /// A single-value collection.
    Value,
    /// A `String`-keyed ordered map.
    OrderedMap,
    /// A deque.
    Deque,
}

/// The item payload of a keyed-state collection.
#[derive(Debug, Clone, Copy, PartialEq, Eq, Structural)]
pub enum CollectionPayload {
    /// JSON values.
    Json,
    /// The full Kafka message the handler received.
    Message,
}

/// Declares one keyed-state collection to register before subscribe.
#[derive(Debug)]
pub struct StateCollectionConfig {
    /// The collection name (non-empty, unique within the client).
    pub name: String,
    /// The collection kind: `"value"`, `"map"`, or `"deque"`.
    pub kind: String,
    /// The item payload: `"json"` or `"message"`.
    pub payload: String,
    /// Optional per-write TTL in whole seconds.
    pub ttl_seconds: Option<NumberArg>,
    /// Optional opt-out of transactional staging.
    pub read_uncommitted: Option<bool>,
    /// Whether other consumer groups may read this JSON collection.
    pub published: Option<bool>,
    /// Optional map-only keyset bound (`0..=4096`).
    pub keyset_limit: Option<NumberArg>,
    /// Optional deque-only window capacity (`>= 1`).
    pub capacity: Option<NumberArg>,
}

/// A validated collection descriptor, as it is registered.
#[derive(Debug)]
pub struct CollectionDescriptor {
    pub name: String,
    pub kind: CollectionKind,
    pub payload: CollectionPayload,
    /// Per-write TTL in whole seconds, when set.
    pub ttl_seconds: Option<u32>,
    /// Whether writes skip transactional staging.
    pub read_uncommitted: bool,
    /// Whether the collection is published, when set.
    pub published: Option<bool>,
    /// The map keyset bound, when set.
    pub keyset_limit: Option<u32>,
    /// The deque window capacity, when set.
    pub capacity: Option<usize>,
}

/// The content of a descriptor, with its name as text.
pub struct DescriptorModel {
    pub name: Seq<char>,
    pub kind: CollectionKind,
    pub payload: CollectionPayload,
    pub ttl_seconds: Option<u32>,
    pub read_uncommitted: bool,
    pub published: Option<bool>,
    pub keyset_limit: Option<u32>,
    pub capacity: Option<usize>,
}

impl DeepView for CollectionDescriptor {
    type V = DescriptorModel;

    open spec fn deep_view(&self) -> DescriptorModel {
        DescriptorModel {
            name: self.name@,
            kind: self.kind,
            payload: self.payload,
            ttl_seconds: self.ttl_seconds,
            read_uncommitted: self.read_uncommitted,
            published: self.published,
            keyset_limit: self.keyset_limit,
            capacity: self.capacity,
        }
    }
}

/// A descriptor is well formed: a name, a TTL of at least a second, a keyset
/// bound only on maps and at most 4096, a capacity only on deques and at
/// least 1, and publication only for JSON collections.
pub open spec fn descriptor_well_formed(d: DescriptorModel) -> bool {
    &&& d.name.len() > 0
    &&& (d.ttl_seconds matches Some(t) ==> t >= 1)
    &&& (d.keyset_limit matches Some(l) ==> d.kind == CollectionKind::OrderedMap && l <= 4096)
    &&& (d.capacity matches Some(c) ==> d.kind == CollectionKind::Deque && c >= 1)
    &&& (d.published == Some(true) ==> d.payload == CollectionPayload::Json)
}

pub open spec fn descriptor_result(r: Result<CollectionDescriptor, String>) -> Result<DescriptorModel, Seq<char>> {
    match r {
        Ok(d) => Ok(d.deep_view()),
        Err(e) => Err(e@),
    }
}

/// A fresh descriptor of one kind and payload with every option unset.
pub fn descriptor(name: &str, kind: CollectionKind, payload: CollectionPayload) -> (r: CollectionDescriptor)
    ensures
        r.deep_view() == (DescriptorModel {
            name: name@,
            kind,
            payload,
            ttl_seconds: None,
            read_uncommitted: false,
            published: None,
            keyset_limit: None,
            capacity: None,
        }),
{
    CollectionDescriptor {
        name: String::from_str(name),
        kind,
        payload,
        ttl_seconds: None,
        read_uncommitted: false,
        published: None,
        keyset_limit: None,
        capacity: None,
    }
}

/// Applies the shared descriptor options: the TTL, the commit mode (only
/// `read_uncommitted: true` opts out of staging) and publication.
pub fn with_def(
    descriptor: CollectionDescriptor,
    ttl_seconds: Option<u32>,
    read_uncommitted: Option<bool>,
    published: Option<bool>,
) -> (r: CollectionDescriptor)
    ensures
        r.deep_view() == (DescriptorModel {
            ttl_seconds: match ttl_seconds {
                Some(t) => Some(t),
                None => descriptor.ttl_seconds,
            },
            read_uncommitted: descriptor.read_uncommitted || read_uncommitted == Some(true),
            published: match published {
                Some(p) => Some(p),
                None => descriptor.published,
            },
            ..descriptor.deep_view()
        }),
{
    let mut descriptor = descriptor;
    if let Some(ttl) = ttl_seconds {
        descriptor.ttl_seconds = Some(ttl);
    }
    if read_uncommitted == Some(true) {
        descriptor.read_uncommitted = true;
    }
    if let Some(published) = published {
        descriptor.published = Some(published);
    }
    descriptor
}

/// Applies the map-only keyset bound when configured.
pub fn with_keyset(descriptor: CollectionDescriptor, keyset_limit: Option<u32>) -> (r: CollectionDescriptor)
    requires
        descriptor.kind == CollectionKind::OrderedMap,
    ensures
        r.deep_view() == (DescriptorModel {
            keyset_limit: match keyset_limit {
                Some(l) => Some(l),
                None => descriptor.keyset_limit,
            },
            ..descriptor.deep_view()
        }),
{
    match keyset_limit {
        Some(limit) => CollectionDescriptor { keyset_limit: Some(limit), ..descriptor },
        None => descriptor,
    }
}

/// Applies the deque-only window capacity when configured.
pub fn with_capacity(descriptor: CollectionDescriptor, capacity: Option<usize>) -> (r: CollectionDescriptor)
    requires
        descriptor.kind == CollectionKind::Deque,
    ensures
        r.deep_view() == (DescriptorModel {
            capacity: match capacity {
                Some(c) => Some(c),
                None => descriptor.capacity,
            },
            ..descriptor.deep_view()
        }),
{
    match capacity {
        Some(cap) => CollectionDescriptor { capacity: Some(cap), ..descriptor },
        None => descriptor,
    }
}

// ---------------------------------------------------------------------------
// Field checks
// ---------------------------------------------------------------------------

/// The name of a field of the collection at `index`, as messages quote it.
pub open spec fn field_name(index: nat, field: Seq<char>) -> Seq<char> {
    "state_collections["@ + decimal(index) + "]."@ + field
}

fn field_name_text(index: usize, field: &str) -> (r: String)
    ensures
        r@ == field_name(index as nat, field@),
{
    let i = format_unsigned(index as u128);
    let mut s = join3("state_collections[", i.as_str(), "].");
    s.append(field);
    s
}

pub open spec fn kind_message(index: nat, kind: Seq<char>) -> Seq<char> {
    field_name(index, "kind"@) + ": expected \"value\", \"map\", or \"deque\", got "@ + debug_text(kind)
}

/// The collection kind a token names.
pub open spec fn spec_kind(index: nat, kind: Seq<char>) -> Result<CollectionKind, Seq<char>> {
    if kind == "value"@ {
        Ok(CollectionKind::Value)
    } else if kind == "map"@ {
        Ok(CollectionKind::OrderedMap)
    } else if kind == "deque"@ {
        Ok(CollectionKind::Deque)
    } else {
        Err(kind_message(index, kind))
    }
}

/// Parses a collection-kind token.
pub fn parse_kind(index: usize, kind: &str) -> (r: Result<CollectionKind, String>)
    ensures
        string_result(r) == spec_kind(index as nat, kind@),
{
    if crate::text::eq_str(kind, "value") {
        Ok(CollectionKind::Value)
    } else if crate::text::eq_str(kind, "map") {
        Ok(CollectionKind::OrderedMap)
    } else if crate::text::eq_str(kind, "deque") {
        Ok(CollectionKind::Deque)
    } else {
        let mut m = field_name_text(index, "kind");
        m.append(": expected \"value\", \"map\", or \"deque\", got ");
        let q = debug_quote(kind);
        m.append(q.as_str());
        Err(m)
    }
}

pub open spec fn payload_message(index: nat, payload: Seq<char>) -> Seq<char> {
    field_name(index, "payload"@) + ": expected \"json\" or \"message\", got "@ + debug_text(payload)
}

/// The collection payload a token names.
pub open spec fn spec_payload(index: nat, payload: Seq<char>) -> Result<CollectionPayload, Seq<char>> {
    if payload == "json"@ {
        Ok(CollectionPayload::Json)
    } else if payload == "message"@ {
        Ok(CollectionPayload::Message)
    } else {
        Err(payload_message(index, payload))
    }
}

/// Parses a collection-payload token.
pub fn parse_payload(index: usize, payload: &str) -> (r: Result<CollectionPayload, String>)
    ensures
        string_result(r) == spec_payload(index as nat, payload@),
{
    if crate::text::eq_str(payload, "json") {
        Ok(CollectionPayload::Json)
    } else if crate::text::eq_str(payload, "message") {
        Ok(CollectionPayload::Message)
    } else {
        let mut m = field_name_text(index, "payload");
        m.append(": expected \"json\" or \"message\", got ");
        let q = debug_quote(payload);
        m.append(q.as_str());
        Err(m)
    }
}

/// The TTL of a collection: a whole number of seconds in `1..=u32::MAX`.
pub open spec fn spec_ttl(index: nat, value: Option<NumberArg>) -> Result<Option<u32>, Seq<char>> {
    match value {
        None => Ok(None),
        Some(v) => match spec_whole_number(v, field_name(index, "ttl_seconds"@), 1, u32::MAX) {
            Ok(t) => Ok(Some(t)),
            Err(e) => Err(e),
        },
    }
}

fn ttl(value: Option<NumberArg>, index: usize) -> (r: Result<Option<u32>, String>)
    ensures
        string_result(r) == spec_ttl(index as nat, value),
{
    match value {
        None => Ok(None),
        Some(v) => {
            let field = field_name_text(index, "ttl_seconds");
            match whole_number_field(v, field.as_str(), 1, u32::MAX) {
                Ok(t) => Ok(Some(t)),
                Err(e) => Err(e),
            }
        },
    }
}

/// The keyset bound of a collection: only maps take one, in `0..=4096`.
pub open spec fn spec_keyset_limit(value: Option<NumberArg>, kind: CollectionKind, index: nat) -> Result<Option<u32>, Seq<char>> {
    match value {
        None => Ok(None),
        Some(v) => if kind != CollectionKind::OrderedMap {
            Err(field_name(index, "keyset_limit"@) + ": only valid for map collections"@)
        } else {
            match spec_whole_number(v, field_name(index, "keyset_limit"@), 0, 4096) {
                Ok(l) => Ok(Some(l)),
                Err(e) => Err(e),
            }
        },
    }
}

/// Validates the map-only keyset bound.
pub fn keyset_limit(value: Option<NumberArg>, kind: CollectionKind, index: usize) -> (r: Result<Option<u32>, String>)
    ensures
        string_result(r) == spec_keyset_limit(value, kind, index as nat),
{
    let v = match value {
        None => {
            return Ok(None);
        },
        Some(v) => v,
    };
    let field = field_name_text(index, "keyset_limit");
    if kind != CollectionKind::OrderedMap {
        return Err(join2(field.as_str(), ": only valid for map collections"));
    }
    match whole_number_field(v, field.as_str(), 0, 4096) {
        Ok(l) => Ok(Some(l)),
        Err(e) => Err(e),
    }
}

/// The window capacity of a collection: only deques take one, at least 1.
pub open spec fn spec_capacity(value: Option<NumberArg>, kind: CollectionKind, index: nat) -> Result<Option<usize>, Seq<char>> {
    match value {
        None => Ok(None),
        Some(v) => if kind != CollectionKind::Deque {
            Err(field_name(index, "capacity"@) + ": only valid for deque collections"@)
        } else {
            match spec_whole_number(v, field_name(index, "capacity"@), 1, u32::MAX) {
                Ok(c) => Ok(Some(c as usize)),
                Err(e) => Err(e),
            }
        },
    }
}

/// Validates the deque-only window capacity.
pub fn capacity(value: Option<NumberArg>, kind: CollectionKind, index: usize) -> (r: Result<Option<usize>, String>)
    ensures
        string_result(r) == spec_capacity(value, kind, index as nat),
        r matches Ok(Some(c)) ==> c >= 1,
{
    let v = match value {
        None => {
            return Ok(None);
        },
        Some(v) => v,
    };
    let field = field_name_text(index, "capacity");
    if kind != CollectionKind::Deque {
        return Err(join2(field.as_str(), ": only valid for deque collections"));
    }
    match whole_number_field(v, field.as_str(), 1, u32::MAX) {
        Ok(c) => Ok(Some(c as usize)),
        Err(e) => Err(e),
    }
}

// ---------------------------------------------------------------------------
// One collection
// ---------------------------------------------------------------------------

pub open spec fn published_message(index: nat) -> Seq<char> {
    field_name(index, "published"@) + ": published readers support JSON collections only"@
}

/// The descriptor one declaration registers, or the first invalid field.
pub open spec fn spec_register(index: nat, c: StateCollectionConfig) -> Result<DescriptorModel, Seq<char>> {
    if c.name@.len() == 0 {
        Err(field_name(index, "name"@) + ": must not be empty"@)
    } else {
        match spec_kind(index, c.kind@) {
            Err(e) => Err(e),
            Ok(kind) => match spec_payload(index, c.payload@) {
                Err(e) => Err(e),
                Ok(payload) => match spec_ttl(index, c.ttl_seconds) {
                    Err(e) => Err(e),
                    Ok(ttl_seconds) => match spec_keyset_limit(c.keyset_limit, kind, index) {
                        Err(e) => Err(e),
                        Ok(keyset_limit) => match spec_capacity(c.capacity, kind, index) {
                            Err(e) => Err(e),
                            Ok(capacity) => if c.published == Some(true) && payload == CollectionPayload::Message {
                                Err(published_message(index))
                            } else {
                                Ok(DescriptorModel {
                                    name: c.name@,
                                    kind,
                                    payload,
                                    ttl_seconds,
                                    read_uncommitted: c.read_uncommitted == Some(true),
                                    published: c.published,
                                    keyset_limit,
                                    capacity,
                                })
                            },
                        },
                    },
                },
            },
        }
    }
}

/// Validates one collection and builds its descriptor over the closed
/// kind × payload matrix.
pub fn register_state_collection(index: usize, collection: &StateCollectionConfig) -> (r: Result<CollectionDescriptor, String>)
    ensures
        descriptor_result(r) == spec_register(index as nat, *collection),
{
    if collection.name.as_str().is_empty() {
        let f = field_name_text(index, "name");
        return Err(join2(f.as_str(), ": must not be empty"));
    }
    let kind = match parse_kind(index, collection.kind.as_str()) {
        Ok(k) => k,
        Err(e) => {
            return Err(e);
        },
    };
    let payload = match parse_payload(index, collection.payload.as_str()) {
        Ok(p) => p,
        Err(e) => {
            return Err(e);
        },
    };
    let ttl_seconds = match ttl(collection.ttl_seconds, index) {
        Ok(t) => t,
        Err(e) => {
            return Err(e);
        },
    };
    let keyset = match keyset_limit(collection.keyset_limit, kind, index) {
        Ok(l) => l,
        Err(e) => {
            return Err(e);
        },
    };
    let cap = match capacity(collection.capacity, kind, index) {
        Ok(c) => c,
        Err(e) => {
            return Err(e);
        },
    };
    if collection.published == Some(true) && payload == CollectionPayload::Message {
        let f = field_name_text(index, "published");
        return Err(join2(f.as_str(), ": published readers support JSON collections only"));
    }
    let name = collection.name.as_str();
    let d = with_def(descriptor(name, kind, payload), ttl_seconds, collection.read_uncommitted, collection.published);
    Ok(match kind {
        CollectionKind::Value => d,
        CollectionKind::OrderedMap => with_keyset(d, keyset),
        CollectionKind::Deque => with_capacity(d, cap),
    })
}

// ---------------------------------------------------------------------------
// All collections
// ---------------------------------------------------------------------------

pub open spec fn duplicate_message(index: nat, name: Seq<char>) -> Seq<char> {
    field_name(index, "name"@) + ": duplicate collection name "@ + debug_text(name)
}

/// Whether an earlier declaration than `i` has the same name.
pub open spec fn named_before(cs: Seq<StateCollectionConfig>, i: int) -> bool {
    exists|j: int| 0 <= j < i && #[trigger] cs[j].name@ == cs[i].name@
}

/// The descriptors of the declarations in order, or the first error: a name
/// seen before, or an invalid field.
pub open spec fn spec_collections(cs: Seq<StateCollectionConfig>) -> Result<Seq<DescriptorModel>, Seq<char>>
    decreases cs.len(),
{
    if cs.len() == 0 {
        Ok(seq![])
    } else {
        let i = cs.len() - 1;
        match spec_collections(cs.drop_last()) {
            Err(e) => Err(e),
            Ok(ds) => if named_before(cs, i) {
                Err(duplicate_message(i as nat, cs[i].name@))
            } else {
                match spec_register(i as nat, cs[i]) {
                    Err(e) => Err(e),
                    Ok(d) => Ok(ds.push(d)),
                }
            },
        }
    }
}

pub open spec fn descriptors_result(r: Result<Vec<CollectionDescriptor>, String>) -> Result<Seq<DescriptorModel>, Seq<char>> {
    match r {
        Ok(ds) => Ok(ds@.map_values(|d: CollectionDescriptor| d.deep_view())),
        Err(e) => Err(e@),
    }
}

proof fn lemma_collections_err_extends(cs: Seq<StateCollectionConfig>, j: int)
    requires
        0 <= j <= cs.len(),
        spec_collections(cs.take(j)) is Err,
    ensures
        spec_collections(cs) == spec_collections(cs.take(j)),
    decreases cs.len() - j,
{
    if j < cs.len() {
        assert(cs.take(j + 1).drop_last() =~= cs.take(j));
        lemma_collections_err_extends(cs, j + 1);
    } else {
        assert(cs.take(j) =~= cs);
    }
}

proof fn lemma_named_before_prefix(cs: Seq<StateCollectionConfig>, i: int)
    requires
        0 <= i < cs.len(),
    ensures
        named_before(cs.take(i + 1), i) == named_before(cs, i),
{
    if named_before(cs, i) {
        let j = choose|j: int| 0 <= j < i && #[trigger] cs[j].name@ == cs[i].name@;
        assert(cs.take(i + 1)[j] == cs[j]);
    }
    if named_before(cs.take(i + 1), i) {
        let j = choose|j: int| 0 <= j < i && #[trigger] cs.take(i + 1)[j].name@ == cs.take(i + 1)[i].name@;
        assert(cs.take(i + 1)[j] == cs[j]);
    }
}

/// Finds whether a declaration before `index` has the name at `index`.
fn seen_before(collections: &Vec<StateCollectionConfig>, index: usize) -> (r: bool)
    requires
        index < collections.len(),
    ensures
        r == named_before(collections@, index as int),
{
    let name = collections[index].name.as_str();
    let mut j: usize = 0;
    while j < index
        invariant
            j <= index < collections.len(),
            name@ == collections@[index as int].name@,
            forall|k: int| 0 <= k < j ==> collections@[k].name@ != collections@[index as int].name@,
        decreases index - j,
    {
        if crate::text::eq_str(collections[j].name.as_str(), name) {
            assert(collections@[j as int].name@ == collections@[index as int].name@);
            return true;
        }
        j = j + 1;
    }
    false
}

/// Validates every declared collection in order, rejecting a name declared
/// twice.
pub fn validate_collections(collections: &Vec<StateCollectionConfig>) -> (r: Result<Vec<CollectionDescriptor>, String>)
    ensures
        descriptors_result(r) == spec_collections(collections@),
{
    let mut out: Vec<CollectionDescriptor> = Vec::new();
    let mut i: usize = 0;
    assert(collections@.take(0) =~= Seq::<StateCollectionConfig>::empty());
    assert(out@.map_values(|d: CollectionDescriptor| d.deep_view()) =~= Seq::<DescriptorModel>::empty());
    while i < collections.len()
        invariant
            i <= collections.len(),
            spec_collections(collections@.take(i as int)) == Ok::<Seq<DescriptorModel>, Seq<char>>(
                out@.map_values(|d: CollectionDescriptor| d.deep_view()),
            ),
        decreases collections.len() - i,
    {
        let ghost prefix = collections@.take(i + 1);
        proof {
            assert(prefix.drop_last() =~= collections@.take(i as int));
            assert(prefix[i as int] == collections@[i as int]);
            lemma_named_before_prefix(collections@, i as int);
        }
        if seen_before(collections, i) {
            let f = field_name_text(i, "name");
            let mut m = join2(f.as_str(), ": duplicate collection name ");
            let q = debug_quote(collections[i].name.as_str());
            m.append(q.as_str());
            proof {
                lemma_collections_err_extends(collections@, i + 1);
            }
            return Err(m);
        }
        match register_state_collection(i, &collections[i]) {
            Ok(d) => {
                out.push(d);
                assert(out@.map_values(|d: CollectionDescriptor| d.deep_view()) =~= spec_collections(prefix)->Ok_0);
            },
            Err(e) => {
                proof {
                    lemma_collections_err_extends(collections@, i + 1);
                }
                return Err(e);
            },
        }
        i = i + 1;
    }
    assert(collections@.take(collections.len() as int) =~= collections@);
    Ok(out)
}

// ---------------------------------------------------------------------------
// Client-wide options
// ---------------------------------------------------------------------------

/// A duration of whole seconds and nanoseconds.
#[derive(Debug, Clone, Copy, PartialEq, Eq, Structural)]
pub struct CacheDuration {
    pub secs: u64,
    pub nanos: u32,
}

/// A cache TTL that Ruby passed in seconds, as the checks read it.
#[derive(Debug, Clone, Copy, PartialEq, Eq, Structural)]
pub enum TtlArg {
    /// A finite value greater than zero, as a duration.
    Positive(CacheDuration),
    /// Zero, a negative or a non-finite value.
    NotPositive,
}

/// The `state_read_cache` option: a flag or a TTL.
#[derive(Debug, Clone, Copy, PartialEq, Eq, Structural)]
pub enum ReadCacheArg {
    Disabled(bool),
    Ttl(TtlArg),
}

/// The client-wide keyed-state options.
#[derive(Debug)]
pub struct StateOptions {
    /// Root directory for the local keyed-state cache.
    pub cache_dir: Option<String>,
    /// Delay in whole seconds before the recovery sweep.
    pub recovery_delay: Option<NumberArg>,
    /// Capacity of the in-memory keyed-state cache, in bytes.
    pub cache_size_bytes: Option<u64>,
    /// Byte budget for the published-state read-through cache.
    pub read_cache_size_bytes: Option<u64>,
    /// Default cache policy for published-state reads.
    pub read_cache: Option<ReadCacheArg>,
}

/// The validated client-wide keyed-state settings. An unset field keeps the
/// runtime's default.
#[derive(Debug)]
pub struct StateSettings {
    pub cache_dir: Option<String>,
    pub recovery_delay: Option<u32>,
    pub cache_size_bytes: Option<u64>,
    pub read_cache_size_bytes: Option<u64>,
    /// `Some(None)` bypasses the read cache; `Some(Some(d))` sets its TTL.
    pub read_cache_ttl: Option<Option<CacheDuration>>,
}

/// The settings the options give, or the first invalid option, checked in
/// the order cache directory, recovery delay, cache size, read cache size,
/// read cache policy.
pub open spec fn spec_state_settings(o: StateOptions) -> Result<StateSettings, Seq<char>> {
    if o.cache_dir matches Some(d) && d@.len() == 0 {
        Err("state_cache_dir: must not be an empty string"@)
    } else {
        match (match o.recovery_delay {
            None => Ok(None),
            Some(v) => match spec_whole_number(v, "state_recovery_delay"@, 1, u32::MAX) {
                Ok(s) => Ok(Some(s)),
                Err(e) => Err(e),
            },
        }) {
            Err(e) => Err(e),
            Ok(recovery_delay) => if o.cache_size_bytes == Some(0u64) {
                Err("state_cache_size_bytes: must be greater than 0"@)
            } else if o.read_cache_size_bytes == Some(0u64) {
                Err("state_read_cache_size_bytes: must be greater than 0"@)
            } else {
                match o.read_cache {
                    Some(ReadCacheArg::Disabled(true)) => Err("state_read_cache: true is ambiguous; use a duration or false"@),
                    Some(ReadCacheArg::Ttl(TtlArg::NotPositive)) => Err("state_read_cache: duration must be greater than 0"@),
                    _ => Ok(StateSettings {
                        cache_dir: o.cache_dir,
                        recovery_delay,
                        cache_size_bytes: o.cache_size_bytes,
                        read_cache_size_bytes: o.read_cache_size_bytes,
                        read_cache_ttl: match o.read_cache {
                            None => None,
                            Some(ReadCacheArg::Disabled(_)) => Some(None),
                            Some(ReadCacheArg::Ttl(TtlArg::Positive(d))) => Some(Some(d)),
                            Some(ReadCacheArg::Ttl(TtlArg::NotPositive)) => None,
                        },
                    }),
                }
            },
        }
    }
}

pub open spec fn settings_result(r: Result<StateSettings, String>) -> Result<StateSettings, Seq<char>> {
    match r {
        Ok(s) => Ok(s),
        Err(e) => Err(e@),
    }
}

/// Validates the client-wide keyed-state options.
pub fn state_settings(options: &StateOptions) -> (r: Result<StateSettings, String>)
    ensures
        settings_result(r) == spec_state_settings(*options),
{
    if let Some(dir) = &options.cache_dir {
        if dir.as_str().is_empty() {
            return Err(String::from_str("state_cache_dir: must not be an empty string"));
        }
    }
    let recovery_delay = match options.recovery_delay {
        None => None,
        Some(v) => match whole_number_field(v, "state_recovery_delay", 1, u32::MAX) {
            Ok(s) => Some(s),
            Err(e) => {
                return Err(e);
            },
        },
    };
    if options.cache_size_bytes == Some(0u64) {
        return Err(String::from_str("state_cache_size_bytes: must be greater than 0"));
    }
    if options.read_cache_size_bytes == Some(0u64) {
        return Err(String::from_str("state_read_cache_size_bytes: must be greater than 0"));
    }
    let read_cache_ttl = match options.read_cache {
        None => None,
        Some(ReadCacheArg::Disabled(false)) => Some(None),
        Some(ReadCacheArg::Disabled(true)) => {
            return Err(String::from_str("state_read_cache: true is ambiguous; use a duration or false"));
        },
        Some(ReadCacheArg::Ttl(TtlArg::Positive(d))) => Some(Some(d)),
        Some(ReadCacheArg::Ttl(TtlArg::NotPositive)) => {
            return Err(String::from_str("state_read_cache: duration must be greater than 0"));
        },
    };
    Ok(StateSettings {
        cache_dir: crate::text::copy_opt_string(&options.cache_dir),
        recovery_delay,
        cache_size_bytes: options.cache_size_bytes,
        read_cache_size_bytes: options.read_cache_size_bytes,
        read_cache_ttl,
    })
}

// ---------------------------------------------------------------------------
// Per-reader cache policy
// ---------------------------------------------------------------------------

/// A per-reader cache TTL that Ruby passed in seconds, as the check reads it.
#[derive(Debug, Clone, Copy, PartialEq, Eq, Structural)]
pub enum SecondsArg {
    /// A finite, non-negative value that fits a duration, as that duration.
    Valid(CacheDuration),
    /// A negative, non-finite or too large value.
    Invalid,
}

/// The cache policy of one published-state reader.
#[derive(Debug, Clone, Copy, PartialEq, Eq, Structural)]
pub enum ReadCache {
    /// Use the client's default policy.
    Inherit,
    /// Bypass the cache.
    Disabled,
    /// Cache reads for this long.
    Ttl(CacheDuration),
}

/// Whether a duration is zero.
pub open spec fn is_zero(d: CacheDuration) -> bool {
    d.secs == 0 && d.nanos == 0
}

/// Chooses a reader's cache policy from its optional TTL and its disabled
/// flag: a TTL must be a positive duration, and a TTL together with the flag
/// is an error.
pub fn read_cache(seconds: Option<SecondsArg>, disabled: bool) -> (r: Result<ReadCache, String>)
    ensures
        string_result(r) == (match (seconds, disabled) {
            (None, false) => Ok(ReadCache::Inherit),
            (None, true) => Ok(ReadCache::Disabled),
            (Some(SecondsArg::Valid(d)), false) => if is_zero(d) {
                Err("read_cache must be finite and non-negative"@)
            } else {
                Ok(ReadCache::Ttl(d))
            },
            (Some(SecondsArg::Invalid), false) => Err("read_cache must be finite and non-negative"@),
            (Some(_), true) => Err::<ReadCache, Seq<char>>("read_cache cannot specify a TTL and be disabled"@),
        }),
{
    match (seconds, disabled) {
        (None, false) => Ok(ReadCache::Inherit),
        (None, true) => Ok(ReadCache::Disabled),
        (Some(SecondsArg::Valid(d)), false) => if d.secs == 0 && d.nanos == 0 {
            Err(String::from_str("read_cache must be finite and non-negative"))
        } else {
            Ok(ReadCache::Ttl(d))
        },
        (Some(SecondsArg::Invalid), false) => Err(String::from_str("read_cache must be finite and non-negative")),
        (Some(_), true) => Err(String::from_str("read_cache cannot specify a TTL and be disabled")),
    }
}

// ---------------------------------------------------------------------------
// Laws
// ---------------------------------------------------------------------------

/// Every registered descriptor is well formed, and registration keeps the
/// declaration's name.
pub proof fn law_registered_descriptor_well_formed(index: nat, c: StateCollectionConfig)
    ensures
        spec_register(index, c) matches Ok(d) ==> descriptor_well_formed(d) && d.name == c.name@,
{
}

/// Duplicate names are rejected: a list of declarations in which two share a
/// name never registers.
pub proof fn law_duplicate_names_rejected(cs: Seq<StateCollectionConfig>, i: int, j: int)
    requires
        0 <= i < j < cs.len(),
        cs[i].name@ == cs[j].name@,
    ensures
        spec_collections(cs) is Err,
{
    let p = cs.take(j + 1);
    assert(p.drop_last() =~= cs.take(j));
    assert(p[i] == cs[i] && p[j] == cs[j]);
    assert(named_before(p, j));
    lemma_collections_err_extends(cs, j + 1);
}

/// The accepted declarations register one well-formed descriptor each, in
/// order, under pairwise distinct names.
pub proof fn law_collections_registered_in_order(cs: Seq<StateCollectionConfig>)
    ensures
        spec_collections(cs) matches Ok(ds) ==> {
            &&& ds.len() == cs.len()
            &&& forall|i: int| 0 <= i < ds.len() ==> #[trigger] ds[i].name == cs[i].name@ && descriptor_well_formed(ds[i])
            &&& forall|i: int, j: int| 0 <= i < j < ds.len() ==> #[trigger] ds[i].name != #[trigger] ds[j].name
        },
    decreases cs.len(),
{
    if cs.len() > 0 {
        let last = cs.len() - 1;
        law_collections_registered_in_order(cs.drop_last());
        if spec_collections(cs) is Ok {
            let ds = spec_collections(cs)->Ok_0;
            let prev = spec_collections(cs.drop_last())->Ok_0;
            assert(!named_before(cs, last));
            assert forall|i: int, j: int| 0 <= i < j < ds.len() implies #[trigger] ds[i].name != #[trigger] ds[j].name by {
                if j == last {
                    assert(ds[i] == prev[i]);
                    assert(cs.drop_last()[i] == cs[i]);
                    if ds[i].name == ds[j].name {
                        assert(cs[i].name@ == cs[last].name@);
                        assert(named_before(cs, last));
                    }
                } else {
                    assert(ds[i] == prev[i] && ds[j] == prev[j]);
                }
            }
            assert forall|i: int| 0 <= i < ds.len() implies #[trigger] ds[i].name == cs[i].name@ && descriptor_well_formed(ds[i]) by {
                if i < last {
                    assert(ds[i] == prev[i]);
                    assert(cs.drop_last()[i] == cs[i]);
                }
            }
        }
    }
}

/// The whole number a numeric option names, when it names one.
pub open spec fn whole_value(v: Option<NumberArg>) -> Option<int> {
    match v {
        Some(NumberArg::Whole(n)) => Some(n as int),
        _ => None,
    }
}

/// A registered collection is the declared one: its descriptor has the
/// declared name, the kind and payload its tokens name, and every declared
/// option — TTL, commit mode, published flag, a map's keyset bound, a deque's
/// window capacity — with the declared value; an option left out stays unset.
pub proof fn law_registered_descriptor_carries_declaration(index: nat, c: StateCollectionConfig)
    requires
        spec_register(index, c) is Ok,
    ensures
        ({
            let d = spec_register(index, c)->Ok_0;
            &&& d.name == c.name@
            &&& (c.kind@ == "value"@ ==> d.kind == CollectionKind::Value)
            &&& (c.kind@ == "map"@ ==> d.kind == CollectionKind::OrderedMap)
            &&& (c.kind@ == "deque"@ ==> d.kind == CollectionKind::Deque)
            &&& (c.payload@ == "json"@ ==> d.payload == CollectionPayload::Json)
            &&& (c.payload@ == "message"@ ==> d.payload == CollectionPayload::Message)
            &&& (match d.ttl_seconds { Some(t) => whole_value(c.ttl_seconds) == Some(t as int), None => c.ttl_seconds is None })
            &&& d.read_uncommitted == (c.read_uncommitted == Some(true))
            &&& d.published == c.published
            &&& (match d.keyset_limit { Some(l) => whole_value(c.keyset_limit) == Some(l as int), None => c.keyset_limit is None })
            &&& (match d.capacity { Some(n) => whole_value(c.capacity) == Some(n as int), None => c.capacity is None })
        }),
{
    reveal_strlit("value");
    reveal_strlit("map");
    reveal_strlit("deque");
    reveal_strlit("json");
    reveal_strlit("message");
    assert("value"@[0] == 'v' && "map"@[0] == 'm' && "deque"@[0] == 'd');
    assert("json"@[0] == 'j' && "message"@[0] == 'm');
    if c.kind@ == "map"@ {
        assert(c.kind@[0] != "value"@[0]);
    }
    if c.kind@ == "deque"@ {
        assert(c.kind@[0] != "value"@[0] && c.kind@[0] != "map"@[0]);
    }
    if c.payload@ == "message"@ {
        assert(c.payload@[0] != "json"@[0]);
    }
}

/// The same holds of every collection of an accepted list: the descriptor at
/// each position is the one its declaration registers.
pub proof fn law_collections_are_their_declarations(cs: Seq<StateCollectionConfig>)
    requires
        spec_collections(cs) is Ok,
    ensures
        spec_collections(cs)->Ok_0.len() == cs.len(),
        forall|i: int| 0 <= i < cs.len() ==> #[trigger] spec_register(i as nat, cs[i]) == Ok::<DescriptorModel, Seq<char>>(spec_collections(cs)->Ok_0[i]),
    decreases cs.len(),
{
    if cs.len() > 0 {
        let last = cs.len() - 1;
        law_collections_are_their_declarations(cs.drop_last());
        let ds = spec_collections(cs)->Ok_0;
        let prev = spec_collections(cs.drop_last())->Ok_0;
        assert forall|i: int| 0 <= i < cs.len() implies #[trigger] spec_register(i as nat, cs[i]) == Ok::<DescriptorModel, Seq<char>>(ds[i]) by {
            if i < last {
                assert(cs.drop_last()[i] == cs[i]);
                assert(spec_register(i as nat, cs.drop_last()[i]) == Ok::<DescriptorModel, Seq<char>>(prev[i]));
            }
        }
    }
}

/// A well-formed declaration is registered, with its options: a non-empty
/// name, a known kind and payload, a TTL that is a whole number of seconds in
/// `1..=u32::MAX`, a keyset bound in `0..=4096` only on a map, a window
/// capacity in `1..=u32::MAX` only on a deque, and publishing only of JSON
/// give a descriptor whose TTL, keyset bound and capacity are the declared
/// numbers.
pub proof fn law_valid_declaration_is_registered(index: nat, c: StateCollectionConfig)
    requires
        c.name@.len() > 0,
        c.kind@ == "value"@ || c.kind@ == "map"@ || c.kind@ == "deque"@,
        c.payload@ == "json"@ || c.payload@ == "message"@,
        c.ttl_seconds is Some ==> (whole_value(c.ttl_seconds) matches Some(n) && 1 <= n <= u32::MAX),
        c.keyset_limit is Some ==> c.kind@ == "map"@ && (whole_value(c.keyset_limit) matches Some(n) && 0 <= n <= 4096),
        c.capacity is Some ==> c.kind@ == "deque"@ && (whole_value(c.capacity) matches Some(n) && 1 <= n <= u32::MAX),
        c.published == Some(true) ==> c.payload@ == "json"@,
    ensures
        spec_register(index, c) matches Ok(d) && {
            &&& d.ttl_seconds == (match whole_value(c.ttl_seconds) { Some(n) => Some(n as u32), None => None })
            &&& d.keyset_limit == (match whole_value(c.keyset_limit) { Some(n) => Some(n as u32), None => None })
            &&& d.capacity == (match whole_value(c.capacity) { Some(n) => Some(n as usize), None => None })
        },
{
    reveal_strlit("value");
    reveal_strlit("map");
    reveal_strlit("deque");
    reveal_strlit("json");
    reveal_strlit("message");
    assert("value"@[0] == 'v' && "map"@[0] == 'm' && "deque"@[0] == 'd');
    assert("json"@[0] == 'j' && "message"@[0] == 'm');
    if c.kind@ == "map"@ {
        assert(c.kind@[0] != "value"@[0]);
    }
    if c.kind@ == "deque"@ {
        assert(c.kind@[0] != "value"@[0] && c.kind@[0] != "map"@[0]);
    }
    if c.payload@ == "message"@ {
        assert(c.payload@[0] != "json"@[0]);
    }
}

} // verus!

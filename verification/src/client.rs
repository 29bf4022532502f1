//! The Ruby interface of `Prosody::Client`.

use vstd::prelude::*;

verus! {

/// One Ruby method that the client class defines.
#[derive(Debug, Clone, Copy, PartialEq, Eq)]
pub struct MethodBinding {
    /// The Ruby method name.
    pub name: &'static str,
    /// The number of arguments it takes.
    pub arity: i8,
    /// Whether it is a class method (`Client.new`) rather than an instance
    /// method.
    pub singleton: bool,
}

/// The methods of `Prosody::Client`, in definition order: name, arity, and
/// whether it is a class method.
pub open spec fn client_methods() -> Seq<(Seq<char>, int, bool)> {
    seq![
        ("new"@, 1, true),
        ("consumer_state"@, 0, false),
        ("send_message"@, 3, false),
        ("excise"@, 2, false),
        ("native_request"@, 1, false),
        ("native_request_excise"@, 1, false),
        ("subscribe"@, 1, false),
        ("assigned_partitions"@, 0, false),
        ("is_stalled?"@, 0, false),
        ("unsubscribe"@, 0, false),
        ("shutdown"@, 0, false),
        ("source_system"@, 0, false),
        ("published_value"@, 4, false),
        ("published_map"@, 4, false),
        ("published_deque"@, 4, false),
    ]
}

fn binding(name: &'static str, arity: i8, singleton: bool) -> (r: MethodBinding)
    ensures
        r.name == name,
        r.arity == arity,
        r.singleton == singleton,
{
    MethodBinding { name, arity, singleton }
}

/// The definition of the `Prosody::Client` class: the methods the extension
/// binds when it initializes the client module.
pub fn init() -> (r: Vec<MethodBinding>)
    ensures
        r@.map_values(|b: MethodBinding| (b.name@, b.arity as int, b.singleton)) == client_methods(),
{
    let mut v: Vec<MethodBinding> = Vec::new();
    v.push(binding("new", 1, true));
    v.push(binding("consumer_state", 0, false));
    v.push(binding("send_message", 3, false));
    v.push(binding("excise", 2, false));
    v.push(binding("native_request", 1, false));
    v.push(binding("native_request_excise", 1, false));
    v.push(binding("subscribe", 1, false));
    v.push(binding("assigned_partitions", 0, false));
    v.push(binding("is_stalled?", 0, false));
    v.push(binding("unsubscribe", 0, false));
    v.push(binding("shutdown", 0, false));
    v.push(binding("source_system", 0, false));
    v.push(binding("published_value", 4, false));
    v.push(binding("published_map", 4, false));
    v.push(binding("published_deque", 4, false));
    assert(v@.map_values(|b: MethodBinding| (b.name@, b.arity as int, b.singleton)) =~= client_methods());
    v
}

/// The arguments each `Prosody::Client` operation takes from Ruby, by the
/// method's name: `new(config)`, `send_message(topic, key, payload)`,
/// `excise(topic, key)`, `native_request(request)`,
/// `native_request_excise(request)`, `subscribe(handler)`, the
/// published-state readers `(subsystem, name, cache_seconds,
/// cache_disabled)`, and no arguments for the queries and lifecycle calls.
pub open spec fn client_operation(name: Seq<char>) -> Option<Seq<Seq<char>>> {
    if name == "new"@ {
        Some(seq!["config"@])
    } else if name == "send_message"@ {
        Some(seq!["topic"@, "key"@, "payload"@])
    } else if name == "excise"@ {
        Some(seq!["topic"@, "key"@])
    } else if name == "native_request"@ || name == "native_request_excise"@ {
        Some(seq!["request"@])
    } else if name == "subscribe"@ {
        Some(seq!["handler"@])
    } else if name == "published_value"@ || name == "published_map"@ || name == "published_deque"@ {
        Some(seq!["subsystem"@, "name"@, "cache_seconds"@, "cache_disabled"@])
    } else if name == "consumer_state"@ || name == "assigned_partitions"@ || name == "is_stalled?"@
        || name == "unsubscribe"@ || name == "shutdown"@ || name == "source_system"@ {
        Some(Seq::empty())
    } else {
        None
    }
}

/// Whether the method at position `i` of the client's method table is one of
/// its operations, bound with as many arguments as that operation takes from
/// Ruby, and is a class method exactly when it is `new`.
pub open spec fn binds_its_operation(i: int) -> bool {
    let (name, arity, singleton) = client_methods()[i];
    &&& client_operation(name) matches Some(params) && arity == params.len()
    &&& singleton == (name == "new"@)
}

/// Every method of the client's method table is one of its operations, bound
/// with as many arguments as that operation takes from Ruby, and only `new`
/// is a class method.
pub proof fn law_client_methods_take_their_arguments()
    ensures
        forall|i: int| 0 <= i < client_methods().len() ==> #[trigger] binds_its_operation(i),
{
    reveal_strlit("new");
    reveal_strlit("consumer_state");
    reveal_strlit("send_message");
    reveal_strlit("excise");
    reveal_strlit("native_request");
    reveal_strlit("native_request_excise");
    reveal_strlit("subscribe");
    reveal_strlit("assigned_partitions");
    reveal_strlit("is_stalled?");
    reveal_strlit("unsubscribe");
    reveal_strlit("shutdown");
    reveal_strlit("source_system");
    reveal_strlit("published_value");
    reveal_strlit("published_map");
    reveal_strlit("published_deque");
    // Names of one length differ in a letter.
    assert("consumer_state"@[0] != "native_request"@[0] && "is_stalled?"@[0] != "unsubscribe"@[0]
        && "source_system"@[0] != "published_map"@[0] && "published_value"@[10] != "published_deque"@[10]);
    assert forall|i: int| 0 <= i < client_methods().len() implies #[trigger] binds_its_operation(i) by {
        let names = client_methods().map_values(|m: (Seq<char>, int, bool)| m.0.len() as int);
        assert(names =~= seq![3int, 14, 12, 6, 14, 21, 9, 19, 11, 11, 8, 13, 15, 13, 15]);
    }
}

} // verus!

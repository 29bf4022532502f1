use prosody::query::{
    collect, key_query, limit, parse_direction, position, position_query, Arg, Direction, Edge,
    ErrorClass, IntegerArg, KeywordEntry, RangeArg, Scalar,
};

fn string(s: &str) -> Scalar {
    Scalar { as_string: Ok(s.into()), as_integer: None, inspect: format!("{s:?}") }
}

fn integer(n: i64) -> Scalar {
    Scalar {
        as_string: Err(format!("no implicit conversion of Integer into String")),
        as_integer: Some(if n >= 0 { IntegerArg::NonNegative(n as u64) } else { IntegerArg::Negative }),
        inspect: n.to_string(),
    }
}

fn symbol(s: &str) -> Scalar {
    Scalar {
        as_string: Err("no implicit conversion of Symbol into String".into()),
        as_integer: None,
        inspect: format!(":{s}"),
    }
}

fn arg(s: Scalar) -> Option<Arg> {
    Some(Arg { scalar: s, range: None })
}

fn range_arg(low: Option<Scalar>, high: Option<Scalar>, exclusive: bool, inspect: &str) -> Option<Arg> {
    Some(Arg {
        scalar: Scalar { as_string: Err("no implicit conversion of Range into String".into()), as_integer: None, inspect: inspect.into() },
        range: Some(RangeArg { low, high, exclusive }),
    })
}

fn kw(name: &str, value: Option<Arg>) -> KeywordEntry {
    KeywordEntry { name: name.into(), value }
}

#[test]
fn directions() {
    assert_eq!(parse_direction("forward").unwrap(), Direction::Forward);
    assert_eq!(parse_direction("backward").unwrap(), Direction::Backward);
    let e = parse_direction("sideways").unwrap_err();
    assert_eq!(e.class, ErrorClass::TransientStateError);
    assert_eq!(e.message, "direction: expected :forward or :backward, got :sideways");
}

#[test]
fn key_query_without_options_selects_everything() {
    let q = key_query("backward", None).unwrap();
    assert_eq!(q.direction, Direction::Backward);
    assert_eq!(q.start, Edge::Unbounded);
    assert_eq!(q.end, Edge::Unbounded);
    assert!(q.range.is_none());
    assert!(q.prefix.is_none());
    assert!(q.limit.is_none());
}

#[test]
fn key_query_translates_every_keyword() {
    let q = key_query(
        "forward",
        Some(vec![
            kw("after", arg(string("a"))),
            kw("to", arg(string("m"))),
            kw("range", range_arg(Some(string("b")), Some(string("k")), true, "\"b\"...\"k\"")),
            kw("prefix", arg(string("user:"))),
            kw("limit", arg(integer(10))),
        ]),
    )
    .unwrap();
    assert_eq!(q.start, Edge::Excluded("a".to_string()));
    assert_eq!(q.end, Edge::Included("m".to_string()));
    assert_eq!(q.range, Some((Edge::Included("b".to_string()), Edge::Excluded("k".to_string()))));
    assert_eq!(q.prefix.as_deref(), Some("user:"));
    assert_eq!(q.limit, Some(10));
}

#[test]
fn nil_keyword_leaves_option_unset() {
    let q = key_query("forward", Some(vec![kw("from", None), kw("limit", None)])).unwrap();
    assert_eq!(q.start, Edge::Unbounded);
    assert!(q.limit.is_none());
}

#[test]
fn both_edges_of_one_side_are_rejected() {
    let e = key_query("forward", Some(vec![kw("from", arg(string("a"))), kw("after", arg(string("b")))])).unwrap_err();
    assert_eq!(e.class, ErrorClass::ArgumentError);
    assert_eq!(e.message, "from: and after: are exclusive; pass one of them");
    let e = key_query("forward", Some(vec![kw("before", arg(string("a"))), kw("to", arg(string("b")))])).unwrap_err();
    assert_eq!(e.message, "to: and before: are exclusive; pass one of them");
}

#[test]
fn unknown_keywords_are_rejected() {
    let e = key_query("forward", Some(vec![kw("start", arg(string("a")))])).unwrap_err();
    assert_eq!(e.class, ErrorClass::ArgumentError);
    assert_eq!(e.message, "unknown keyword: :start");
    let e = position_query("forward", Some(vec![kw("prefix", arg(string("a")))])).unwrap_err();
    assert_eq!(e.message, "unknown keyword: :prefix");
}

#[test]
fn non_string_keys_are_type_errors() {
    let e = key_query("forward", Some(vec![kw("from", arg(symbol("a")))])).unwrap_err();
    assert_eq!(e.class, ErrorClass::TypeError);
    assert_eq!(e.message, "no implicit conversion of Symbol into String");
    let e = key_query("forward", Some(vec![kw("range", arg(string("a")))])).unwrap_err();
    assert_eq!(e.class, ErrorClass::TypeError);
    assert_eq!(e.message, "range: expected a Range, got \"a\"");
}

#[test]
fn direction_is_checked_before_keywords() {
    let e = key_query("up", Some(vec![kw("bogus", None)])).unwrap_err();
    assert_eq!(e.class, ErrorClass::TransientStateError);
}

#[test]
fn limits_must_be_positive() {
    assert_eq!(limit(&integer(3)).unwrap(), 3);
    let e = limit(&integer(0)).unwrap_err();
    assert_eq!(e.class, ErrorClass::ArgumentError);
    assert_eq!(e.message, "limit: expected a positive Integer, got 0");
    assert_eq!(limit(&integer(-2)).unwrap_err().message, "limit: expected a positive Integer, got -2");
    assert_eq!(limit(&string("5")).unwrap_err().message, "limit: expected a positive Integer, got \"5\"");
}

#[test]
fn positions_must_be_non_negative_integers() {
    assert_eq!(position("from", &integer(0)).unwrap(), 0);
    let e = position("after", &integer(-1)).unwrap_err();
    assert_eq!(e.class, ErrorClass::ArgumentError);
    assert_eq!(e.message, "after: expected a non-negative Integer position, got -1");
    let huge = Scalar { as_string: Err("x".into()), as_integer: Some(IntegerArg::Huge), inspect: "1e30".into() };
    assert_eq!(position("to", &huge).unwrap_err().message, "to: expected a non-negative Integer position, got 1e30");
}

#[test]
fn position_query_translates_positions() {
    let q = position_query(
        "backward",
        Some(vec![
            kw("from", arg(integer(2))),
            kw("before", arg(integer(9))),
            kw("range", range_arg(None, Some(integer(20)), false, "..20")),
        ]),
    )
    .unwrap();
    assert_eq!(q.direction, Direction::Backward);
    assert_eq!(q.start, Edge::Included(2));
    assert_eq!(q.end, Edge::Excluded(9));
    assert_eq!(q.range, Some((Edge::Unbounded, Edge::Included(20))));
    let e = position_query("forward", Some(vec![kw("range", range_arg(Some(integer(-1)), None, false, "-1..")) ])).unwrap_err();
    assert_eq!(e.message, "range: expected a non-negative Integer position, got -1");
}

#[test]
fn later_keyword_entries_overwrite_earlier_ones() {
    let k = collect(&vec![kw("limit", arg(integer(1))), kw("limit", arg(integer(5)))], true).unwrap();
    assert_eq!(k.limit.unwrap().scalar.inspect, "5");
}

#[test]
fn direction_changes_only_the_direction() {
    let options = || {
        Some(vec![
            kw("from", arg(string("b"))),
            kw("before", arg(string("y"))),
            kw("limit", arg(integer(7))),
        ])
    };
    let f = key_query("forward", options()).unwrap();
    let b = key_query("backward", options()).unwrap();
    assert_eq!(f.direction, Direction::Forward);
    assert_eq!(b.direction, Direction::Backward);
    assert_eq!(f.start, b.start);
    assert_eq!(f.end, b.end);
    assert_eq!(f.limit, b.limit);
    let ef = key_query("forward", Some(vec![kw("limit", arg(integer(0)))])).unwrap_err();
    let eb = key_query("backward", Some(vec![kw("limit", arg(integer(0)))])).unwrap_err();
    assert_eq!((ef.class, ef.message), (eb.class, eb.message));
}

#[test]
fn nil_position_keyword_leaves_option_unset() {
    let with_nil = position_query("forward", Some(vec![kw("after", None), kw("to", arg(integer(3)))])).unwrap();
    let without = position_query("forward", Some(vec![kw("to", arg(integer(3)))])).unwrap();
    assert_eq!(with_nil.start, without.start);
    assert_eq!(with_nil.end, without.end);
    assert_eq!(with_nil.start, Edge::Unbounded);
}

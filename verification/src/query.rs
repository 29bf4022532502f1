//! Translation of scan keywords into state query settings.
//!
//! Map and set queries select string keys. Deque queries select positions that
//! count from the front. Every option narrows the selection, and `nil` leaves
//! an option unset. `from`, `after`, `to`, and `before` apply in iteration
//! order, so a reverse query starts at the high end. `range` bounds keys or
//! positions in ascending terms and applies in either direction.
//!
//! A bad option raises `ArgumentError` or `TypeError`, as Ruby does for a bad
//! keyword argument; an invalid direction token raises a transient state
//! error.
//!
//! The caller hands each keyword value over already read out of Ruby: what
//! `String` conversion gives for it, whether it is an `Integer` and of which
//! size, its `inspect` text, and, for a `Range`, its two ends.

use crate::text::{eq_str, join2, join3, join4};
use vstd::prelude::*;

verus! {

/// The Ruby exception class an error is raised as.
#[derive(Debug, Clone, Copy, PartialEq, Eq, Structural)]
pub enum ErrorClass {
    /// `ArgumentError`.
    ArgumentError,
    /// `TypeError`.
    TypeError,
    /// `Prosody::TransientStateError`.
    TransientStateError,
}

/// An error raised while translating a query.
#[derive(Debug)]
pub struct QueryError {
    /// The exception class.
    pub class: ErrorClass,
    /// The exception message.
    pub message: String,
}

impl View for QueryError {
    type V = (ErrorClass, Seq<char>);

    open spec fn view(&self) -> (ErrorClass, Seq<char>) {
        (self.class, self.message@)
    }
}

/// Traversal direction of a scan.
#[derive(Debug, Clone, Copy, PartialEq, Eq, Structural)]
pub enum Direction {
    /// Ascending keys or positions.
    Forward,
    /// Descending keys or positions.
    Backward,
}

/// What a Ruby `Integer` holds, as far as a position or limit needs it.
#[derive(Debug, Clone, Copy, PartialEq, Eq, Structural)]
pub enum IntegerArg {
    /// An integer in `0..=u64::MAX`.
    NonNegative(u64),
    /// A negative integer.
    Negative,
    /// An integer above `u64::MAX`.
    Huge,
}

/// One Ruby value as the translation reads it.
#[derive(Debug)]
pub struct Scalar {
    /// The result of converting the value to a `String`: the string, or the
    /// message of the `TypeError` that the conversion raised.
    pub as_string: Result<String, String>,
    /// The value as an `Integer`, when it is one.
    pub as_integer: Option<IntegerArg>,
    /// The value's `inspect` text.
    pub inspect: String,
}

/// The two ends of a Ruby `Range`; `None` stands for a `nil` end.
#[derive(Debug)]
pub struct RangeArg {
    /// The low end.
    pub low: Option<Scalar>,
    /// The high end.
    pub high: Option<Scalar>,
    /// Whether the range excludes its high end (`...`).
    pub exclusive: bool,
}

/// A non-`nil` keyword value.
#[derive(Debug)]
pub struct Arg {
    /// The value itself.
    pub scalar: Scalar,
    /// Its ends, when the value is a `Range`.
    pub range: Option<RangeArg>,
}

/// One entry of a keyword hash, in hash order; `value` is `None` for `nil`.
#[derive(Debug)]
pub struct KeywordEntry {
    /// The keyword's name, without the colon.
    pub name: String,
    /// The value, or `None` for `nil`.
    pub value: Option<Arg>,
}

/// One edge of a selection.
#[derive(Debug, Clone, PartialEq, Eq)]
pub enum Edge<T> {
    /// The edge includes this key or position.
    Included(T),
    /// The edge excludes this key or position.
    Excluded(T),
    /// No edge on this side.
    Unbounded,
}

impl<T: DeepView> DeepView for Edge<T> {
    type V = Edge<T::V>;

    open spec fn deep_view(&self) -> Edge<T::V> {
        match self {
            Edge::Included(t) => Edge::Included(t.deep_view()),
            Edge::Excluded(t) => Edge::Excluded(t.deep_view()),
            Edge::Unbounded => Edge::Unbounded,
        }
    }
}

/// The raw option values of a keyword hash. `nil` values are absent.
#[derive(Debug)]
pub struct Keywords {
    pub from: Option<Arg>,
    pub after: Option<Arg>,
    pub to: Option<Arg>,
    pub before: Option<Arg>,
    pub range: Option<Arg>,
    pub prefix: Option<Arg>,
    pub limit: Option<Arg>,
}

/// Translated edges and limit. `T` is a key or a position.
///
/// `start` and `end` are in iteration order. `range` is in ascending terms.
#[derive(Debug)]
pub struct Bounds<T> {
    pub start: Edge<T>,
    pub end: Edge<T>,
    pub range: Option<(Edge<T>, Edge<T>)>,
    pub limit: Option<usize>,
}

/// The mathematical content of translated bounds.
pub struct BoundsModel<V> {
    pub start: Edge<V>,
    pub end: Edge<V>,
    pub range: Option<(Edge<V>, Edge<V>)>,
    pub limit: Option<usize>,
}

impl<T: DeepView> DeepView for Bounds<T> {
    type V = BoundsModel<T::V>;

    open spec fn deep_view(&self) -> BoundsModel<T::V> {
        BoundsModel {
            start: self.start.deep_view(),
            end: self.end.deep_view(),
            range: match self.range {
                Some((lo, hi)) => Some((lo.deep_view(), hi.deep_view())),
                None => None,
            },
            limit: self.limit,
        }
    }
}

/// A map or set query.
#[derive(Debug)]
pub struct KeyQuery {
    pub direction: Direction,
    pub start: Edge<String>,
    pub end: Edge<String>,
    pub range: Option<(Edge<String>, Edge<String>)>,
    pub prefix: Option<String>,
    pub limit: Option<usize>,
}

/// The mathematical content of a map or set query.
pub struct KeyQueryModel {
    pub direction: Direction,
    pub start: Edge<Seq<char>>,
    pub end: Edge<Seq<char>>,
    pub range: Option<(Edge<Seq<char>>, Edge<Seq<char>>)>,
    pub prefix: Option<Seq<char>>,
    pub limit: Option<usize>,
}

impl DeepView for KeyQuery {
    type V = KeyQueryModel;

    open spec fn deep_view(&self) -> KeyQueryModel {
        KeyQueryModel {
            direction: self.direction,
            start: self.start.deep_view(),
            end: self.end.deep_view(),
            range: match self.range {
                Some((lo, hi)) => Some((lo.deep_view(), hi.deep_view())),
                None => None,
            },
            prefix: match self.prefix {
                Some(p) => Some(p@),
                None => None,
            },
            limit: self.limit,
        }
    }
}

/// A deque query over front-relative positions.
#[derive(Debug)]
pub struct PositionQuery {
    pub direction: Direction,
    pub start: Edge<usize>,
    pub end: Edge<usize>,
    pub range: Option<(Edge<usize>, Edge<usize>)>,
    pub limit: Option<usize>,
}

/// The mathematical content of a deque query.
pub struct PositionQueryModel {
    pub direction: Direction,
    pub start: Edge<usize>,
    pub end: Edge<usize>,
    pub range: Option<(Edge<usize>, Edge<usize>)>,
    pub limit: Option<usize>,
}

impl DeepView for PositionQuery {
    type V = PositionQueryModel;

    open spec fn deep_view(&self) -> PositionQueryModel {
        PositionQueryModel {
            direction: self.direction,
            start: self.start.deep_view(),
            end: self.end.deep_view(),
            range: match self.range {
                Some((lo, hi)) => Some((lo.deep_view(), hi.deep_view())),
                None => None,
            },
            limit: self.limit,
        }
    }
}

/// Results of the translation, with the error taken by its view.
pub open spec fn result_model<T: DeepView>(r: Result<T, QueryError>) -> Result<T::V, (ErrorClass, Seq<char>)> {
    match r {
        Ok(t) => Ok(t.deep_view()),
        Err(e) => Err(e@),
    }
}

pub open spec fn argument_error_model(message: Seq<char>) -> (ErrorClass, Seq<char>) {
    (ErrorClass::ArgumentError, message)
}

fn argument_error(message: String) -> (r: QueryError)
    ensures
        r@ == argument_error_model(message@),
{
    QueryError { class: ErrorClass::ArgumentError, message }
}

// ---------------------------------------------------------------------------
// Conversions of single values
// ---------------------------------------------------------------------------

/// Converts one keyword value into a key or a position.
pub trait Converter {
    type Output: DeepView;

    spec fn spec_convert(&self, keyword: Seq<char>, value: Scalar) -> Result<<Self::Output as DeepView>::V, (ErrorClass, Seq<char>)>;

    fn convert(&self, keyword: &str, value: &Scalar) -> (r: Result<Self::Output, QueryError>)
        ensures
            result_model(r) == self.spec_convert(keyword@, *value),
    ;
}

/// Converts values to `String` keys, as `String.try_convert` does.
pub struct KeyConverter;

/// The key a value converts to, or the `TypeError` its conversion raised.
pub open spec fn spec_key(value: Scalar) -> Result<Seq<char>, (ErrorClass, Seq<char>)> {
    match value.as_string {
        Ok(s) => Ok(s@),
        Err(m) => Err((ErrorClass::TypeError, m@)),
    }
}

impl Converter for KeyConverter {
    type Output = String;

    open spec fn spec_convert(&self, keyword: Seq<char>, value: Scalar) -> Result<Seq<char>, (ErrorClass, Seq<char>)> {
        spec_key(value)
    }

    fn convert(&self, keyword: &str, value: &Scalar) -> (r: Result<String, QueryError>) {
        match &value.as_string {
            Ok(s) => Ok(s.clone()),
            Err(m) => Err(QueryError { class: ErrorClass::TypeError, message: m.clone() }),
        }
    }
}

/// Converts values to front-relative deque positions.
pub struct PositionConverter;

/// The message for a value that is no valid position.
pub open spec fn position_message(keyword: Seq<char>, inspect: Seq<char>) -> Seq<char> {
    keyword + ": expected a non-negative Integer position, got "@ + inspect
}

/// The position a value names: a non-negative `Integer` that fits in `usize`.
pub open spec fn spec_position(keyword: Seq<char>, value: Scalar) -> Result<usize, (ErrorClass, Seq<char>)> {
    match value.as_integer {
        Some(IntegerArg::NonNegative(n)) if n <= usize::MAX => Ok(n as usize),
        _ => Err(argument_error_model(position_message(keyword, value.inspect@))),
    }
}

impl Converter for PositionConverter {
    type Output = usize;

    open spec fn spec_convert(&self, keyword: Seq<char>, value: Scalar) -> Result<usize, (ErrorClass, Seq<char>)> {
        spec_position(keyword, value)
    }

    fn convert(&self, keyword: &str, value: &Scalar) -> (r: Result<usize, QueryError>) {
        position(keyword, value)
    }
}

/// Translates a front-relative deque position.
pub fn position(keyword: &str, value: &Scalar) -> (r: Result<usize, QueryError>)
    ensures
        result_model(r) == spec_position(keyword@, *value),
{
    match value.as_integer {
        Some(IntegerArg::NonNegative(n)) => {
            if n <= usize::MAX as u64 {
                return Ok(n as usize);
            }
        },
        _ => {},
    }
    Err(argument_error(join3(keyword, ": expected a non-negative Integer position, got ", value.inspect.as_str())))
}

/// The message for a value that is no valid limit.
pub open spec fn limit_message(inspect: Seq<char>) -> Seq<char> {
    "limit: expected a positive Integer, got "@ + inspect
}

/// The limit a value names: a positive `Integer` that fits in `usize`.
pub open spec fn spec_limit(value: Scalar) -> Result<usize, (ErrorClass, Seq<char>)> {
    match value.as_integer {
        Some(IntegerArg::NonNegative(n)) if 0 < n <= usize::MAX => Ok(n as usize),
        _ => Err(argument_error_model(limit_message(value.inspect@))),
    }
}

/// Translates a result limit.
pub fn limit(value: &Scalar) -> (r: Result<usize, QueryError>)
    ensures
        result_model(r) == spec_limit(*value),
        r matches Ok(n) ==> n > 0,
{
    match value.as_integer {
        Some(IntegerArg::NonNegative(n)) => {
            if 0 < n && n <= usize::MAX as u64 {
                return Ok(n as usize);
            }
        },
        _ => {},
    }
    Err(argument_error(join2("limit: expected a positive Integer, got ", value.inspect.as_str())))
}

// ---------------------------------------------------------------------------
// Edges and ranges
// ---------------------------------------------------------------------------

/// The message for two edges of one side given together.
pub open spec fn exclusive_message(inclusive_name: Seq<char>, exclusive_name: Seq<char>) -> Seq<char> {
    inclusive_name + ": and "@ + exclusive_name + ": are exclusive; pass one of them"@
}

/// One side of the selection: the inclusive and exclusive edges of a side
/// exclude each other, since an options hash has no call order to pick one.
pub open spec fn spec_edge<C: Converter>(
    c: C,
    inclusive_name: Seq<char>,
    inclusive: Option<Arg>,
    exclusive_name: Seq<char>,
    exclusive: Option<Arg>,
) -> Result<Edge<<C::Output as DeepView>::V>, (ErrorClass, Seq<char>)> {
    match (inclusive, exclusive) {
        (Some(_), Some(_)) => Err(argument_error_model(exclusive_message(inclusive_name, exclusive_name))),
        (Some(v), None) => match c.spec_convert(inclusive_name, v.scalar) {
            Ok(t) => Ok(Edge::Included(t)),
            Err(e) => Err(e),
        },
        (None, Some(v)) => match c.spec_convert(exclusive_name, v.scalar) {
            Ok(t) => Ok(Edge::Excluded(t)),
            Err(e) => Err(e),
        },
        (None, None) => Ok(Edge::Unbounded),
    }
}

/// Translates one side of the selection.
pub fn edge<C: Converter>(
    c: &C,
    inclusive_name: &str,
    inclusive: &Option<Arg>,
    exclusive_name: &str,
    exclusive: &Option<Arg>,
) -> (r: Result<Edge<C::Output>, QueryError>)
    ensures
        result_model(r) == spec_edge(*c, inclusive_name@, *inclusive, exclusive_name@, *exclusive),
{
    match (inclusive, exclusive) {
        (Some(_), Some(_)) => Err(argument_error(
            join4(inclusive_name, ": and ", exclusive_name, ": are exclusive; pass one of them"),
        )),
        (Some(v), None) => match c.convert(inclusive_name, &v.scalar) {
            Ok(t) => Ok(Edge::Included(t)),
            Err(e) => Err(e),
        },
        (None, Some(v)) => match c.convert(exclusive_name, &v.scalar) {
            Ok(t) => Ok(Edge::Excluded(t)),
            Err(e) => Err(e),
        },
        (None, None) => Ok(Edge::Unbounded),
    }
}

/// The message for a `range` value that is not a `Range`.
pub open spec fn not_a_range_message(inspect: Seq<char>) -> Seq<char> {
    "range: expected a Range, got "@ + inspect
}

/// A Ruby `Range` in ascending terms: a `nil` end is unbounded, and an
/// exclusive range excludes its high end. A descending range is a valid empty
/// range, so it passes through unchanged and selects nothing.
pub open spec fn spec_range<C: Converter>(c: C, value: Arg) -> Result<(Edge<<C::Output as DeepView>::V>, Edge<<C::Output as DeepView>::V>), (ErrorClass, Seq<char>)> {
    match value.range {
        None => Err((ErrorClass::TypeError, not_a_range_message(value.scalar.inspect@))),
        Some(r) => {
            let low = match r.low {
                None => Ok(Edge::Unbounded),
                Some(v) => match c.spec_convert("range"@, v) {
                    Ok(t) => Ok(Edge::Included(t)),
                    Err(e) => Err(e),
                },
            };
            match low {
                Err(e) => Err(e),
                Ok(low) => match r.high {
                    None => Ok((low, Edge::Unbounded)),
                    Some(v) => match c.spec_convert("range"@, v) {
                        Ok(t) => if r.exclusive {
                            Ok((low, Edge::Excluded(t)))
                        } else {
                            Ok((low, Edge::Included(t)))
                        },
                        Err(e) => Err(e),
                    },
                },
            }
        },
    }
}

/// The translated range, with each edge taken by its model.
pub open spec fn pair_model<T: DeepView>(r: Result<(Edge<T>, Edge<T>), QueryError>) -> Result<(Edge<T::V>, Edge<T::V>), (ErrorClass, Seq<char>)> {
    match r {
        Ok((lo, hi)) => Ok((lo.deep_view(), hi.deep_view())),
        Err(e) => Err(e@),
    }
}

/// Translates a Ruby `Range`.
pub fn range<C: Converter>(c: &C, value: &Arg) -> (r: Result<(Edge<C::Output>, Edge<C::Output>), QueryError>)
    ensures
        pair_model(r) == spec_range(*c, *value),
{
    let parts = match &value.range {
        None => {
            return Err(QueryError {
                class: ErrorClass::TypeError,
                message: join2("range: expected a Range, got ", value.scalar.inspect.as_str()),
            });
        },
        Some(parts) => parts,
    };
    let low = match &parts.low {
        None => Edge::Unbounded,
        Some(v) => match c.convert("range", v) {
            Ok(t) => Edge::Included(t),
            Err(e) => {
                return Err(e);
            },
        },
    };
    match &parts.high {
        None => Ok((low, Edge::Unbounded)),
        Some(v) => match c.convert("range", v) {
            Ok(t) => if parts.exclusive {
                Ok((low, Edge::Excluded(t)))
            } else {
                Ok((low, Edge::Included(t)))
            },
            Err(e) => Err(e),
        },
    }
}

// ---------------------------------------------------------------------------
// Keyword hashes
// ---------------------------------------------------------------------------

fn copy_scalar(value: &Scalar) -> (r: Scalar)
    ensures
        r == *value,
{
    Scalar {
        as_string: match &value.as_string {
            Ok(s) => Ok(s.clone()),
            Err(m) => Err(m.clone()),
        },
        as_integer: value.as_integer,
        inspect: value.inspect.clone(),
    }
}

fn copy_opt_scalar(value: &Option<Scalar>) -> (r: Option<Scalar>)
    ensures
        r == *value,
{
    match value {
        Some(v) => Some(copy_scalar(v)),
        None => None,
    }
}

fn copy_opt_arg(value: &Option<Arg>) -> (r: Option<Arg>)
    ensures
        r == *value,
{
    match value {
        Some(v) => Some(Arg {
            scalar: copy_scalar(&v.scalar),
            range: match &v.range {
                Some(parts) => Some(RangeArg {
                    low: copy_opt_scalar(&parts.low),
                    high: copy_opt_scalar(&parts.high),
                    exclusive: parts.exclusive,
                }),
                None => None,
            },
        }),
        None => None,
    }
}

/// Keywords with every option unset.
pub open spec fn no_keywords() -> Keywords {
    Keywords { from: None, after: None, to: None, before: None, range: None, prefix: None, limit: None }
}

/// The message for a keyword that the query does not know.
pub open spec fn unknown_keyword_message(name: Seq<char>) -> Seq<char> {
    "unknown keyword: :"@ + name
}

/// Whether a keyword name is one that a query takes.
pub open spec fn is_known_keyword(name: Seq<char>, prefix_allowed: bool) -> bool {
    name == "from"@ || name == "after"@ || name == "to"@ || name == "before"@ || name == "range"@
        || (name == "prefix"@ && prefix_allowed) || name == "limit"@
}

/// Records one entry of the hash. Deques have no `prefix`.
pub open spec fn spec_assign(k: Keywords, entry: KeywordEntry, prefix_allowed: bool) -> Result<Keywords, (ErrorClass, Seq<char>)> {
    let n = entry.name@;
    if n == "from"@ {
        Ok(Keywords { from: entry.value, ..k })
    } else if n == "after"@ {
        Ok(Keywords { after: entry.value, ..k })
    } else if n == "to"@ {
        Ok(Keywords { to: entry.value, ..k })
    } else if n == "before"@ {
        Ok(Keywords { before: entry.value, ..k })
    } else if n == "range"@ {
        Ok(Keywords { range: entry.value, ..k })
    } else if n == "prefix"@ && prefix_allowed {
        Ok(Keywords { prefix: entry.value, ..k })
    } else if n == "limit"@ {
        Ok(Keywords { limit: entry.value, ..k })
    } else {
        Err(argument_error_model(unknown_keyword_message(n)))
    }
}

/// Records the entries of a hash in hash order, from a starting result.
pub open spec fn spec_fold(start: Result<Keywords, (ErrorClass, Seq<char>)>, entries: Seq<KeywordEntry>, prefix_allowed: bool) -> Result<Keywords, (ErrorClass, Seq<char>)>
    decreases entries.len(),
{
    if entries.len() == 0 {
        start
    } else {
        match spec_fold(start, entries.drop_last(), prefix_allowed) {
            Ok(k) => spec_assign(k, entries.last(), prefix_allowed),
            Err(e) => Err(e),
        }
    }
}

/// The keywords of a whole hash: the first unknown keyword is an error.
pub open spec fn spec_collect(entries: Seq<KeywordEntry>, prefix_allowed: bool) -> Result<Keywords, (ErrorClass, Seq<char>)> {
    spec_fold(Ok(no_keywords()), entries, prefix_allowed)
}

pub open spec fn keywords_result(r: Result<Keywords, QueryError>) -> Result<Keywords, (ErrorClass, Seq<char>)> {
    match r {
        Ok(k) => Ok(k),
        Err(e) => Err(e@),
    }
}

proof fn lemma_fold_err_extends(start: Result<Keywords, (ErrorClass, Seq<char>)>, s: Seq<KeywordEntry>, j: int, prefix_allowed: bool)
    requires
        0 <= j <= s.len(),
        spec_fold(start, s.take(j), prefix_allowed) is Err,
    ensures
        spec_fold(start, s, prefix_allowed) == spec_fold(start, s.take(j), prefix_allowed),
    decreases s.len() - j,
{
    if j < s.len() {
        assert(s.take(j + 1).drop_last() =~= s.take(j));
        lemma_fold_err_extends(start, s, j + 1, prefix_allowed);
    } else {
        assert(s.take(j) =~= s);
    }
}

/// Collects the keyword hash, in hash order.
pub fn collect(options: &Vec<KeywordEntry>, prefix_allowed: bool) -> (r: Result<Keywords, QueryError>)
    ensures
        keywords_result(r) == spec_collect(options@, prefix_allowed),
{
    let mut k = Keywords { from: None, after: None, to: None, before: None, range: None, prefix: None, limit: None };
    let mut i: usize = 0;
    assert(options@.take(0) =~= Seq::<KeywordEntry>::empty());
    while i < options.len()
        invariant
            i <= options.len(),
            spec_collect(options@.take(i as int), prefix_allowed) == Ok::<Keywords, (ErrorClass, Seq<char>)>(k),
        decreases options.len() - i,
    {
        let entry = &options[i];
        let value = copy_opt_arg(&entry.value);
        let name = entry.name.as_str();
        assert(options@.take(i + 1).drop_last() =~= options@.take(i as int));
        assert(options@.take(i + 1).last() == options@[i as int]);
        if eq_str(name, "from") {
            k.from = value;
        } else if eq_str(name, "after") {
            k.after = value;
        } else if eq_str(name, "to") {
            k.to = value;
        } else if eq_str(name, "before") {
            k.before = value;
        } else if eq_str(name, "range") {
            k.range = value;
        } else if prefix_allowed && eq_str(name, "prefix") {
            k.prefix = value;
        } else if eq_str(name, "limit") {
            k.limit = value;
        } else {
            let e = argument_error(join2("unknown keyword: :", name));
            proof {
                lemma_fold_err_extends(Ok(no_keywords()), options@, i + 1, prefix_allowed);
            }
            return Err(e);
        }
        i = i + 1;
    }
    assert(options@.take(options.len() as int) =~= options@);
    Ok(k)
}

/// An optional value translated when present.
pub open spec fn spec_optional<T>(value: Option<Arg>, convert: spec_fn(Arg) -> Result<T, (ErrorClass, Seq<char>)>) -> Result<Option<T>, (ErrorClass, Seq<char>)> {
    match value {
        None => Ok(None),
        Some(v) => match convert(v) {
            Ok(t) => Ok(Some(t)),
            Err(e) => Err(e),
        },
    }
}

/// The edges, range and limit of a keyword hash, in that order of checks.
pub open spec fn spec_bounds<C: Converter>(c: C, k: Keywords) -> Result<BoundsModel<<C::Output as DeepView>::V>, (ErrorClass, Seq<char>)> {
    match spec_edge(c, "from"@, k.from, "after"@, k.after) {
        Err(e) => Err(e),
        Ok(start) => match spec_edge(c, "to"@, k.to, "before"@, k.before) {
            Err(e) => Err(e),
            Ok(end) => match spec_optional(k.range, |v: Arg| spec_range(c, v)) {
                Err(e) => Err(e),
                Ok(range) => match spec_optional(k.limit, |v: Arg| spec_limit(v.scalar)) {
                    Err(e) => Err(e),
                    Ok(limit) => Ok(BoundsModel { start, end, range, limit }),
                },
            },
        },
    }
}

/// Translates the edges, range, and limit with `c`.
pub fn bounds<C: Converter>(c: &C, k: &Keywords) -> (r: Result<Bounds<C::Output>, QueryError>)
    ensures
        result_model(r) == spec_bounds(*c, *k),
        r matches Ok(b) ==> (b.limit matches Some(n) ==> n > 0),
{
    let start = match edge(c, "from", &k.from, "after", &k.after) {
        Ok(e) => e,
        Err(e) => {
            return Err(e);
        },
    };
    let end = match edge(c, "to", &k.to, "before", &k.before) {
        Ok(e) => e,
        Err(e) => {
            return Err(e);
        },
    };
    let range = match &k.range {
        None => None,
        Some(v) => match range(c, v) {
            Ok(p) => Some(p),
            Err(e) => {
                return Err(e);
            },
        },
    };
    let limit = match &k.limit {
        None => None,
        Some(v) => match limit(&v.scalar) {
            Ok(n) => Some(n),
            Err(e) => {
                return Err(e);
            },
        },
    };
    let b = Bounds { start, end, range, limit };
    Ok(b)
}

// ---------------------------------------------------------------------------
// Queries
// ---------------------------------------------------------------------------

/// The message for a direction token that is neither `:forward` nor
/// `:backward`.
pub open spec fn direction_message(token: Seq<char>) -> Seq<char> {
    "direction: expected :forward or :backward, got :"@ + token
}

/// The traversal direction a token names.
pub open spec fn spec_direction(token: Seq<char>) -> Result<Direction, (ErrorClass, Seq<char>)> {
    if token == "forward"@ {
        Ok(Direction::Forward)
    } else if token == "backward"@ {
        Ok(Direction::Backward)
    } else {
        Err((ErrorClass::TransientStateError, direction_message(token)))
    }
}

pub open spec fn direction_result(r: Result<Direction, QueryError>) -> Result<Direction, (ErrorClass, Seq<char>)> {
    match r {
        Ok(d) => Ok(d),
        Err(e) => Err(e@),
    }
}

/// Parses a traversal direction token (the symbol's name). An invalid token
/// is a caller mistake and is rejected as a transient state error.
pub fn parse_direction(token: &str) -> (r: Result<Direction, QueryError>)
    ensures
        direction_result(r) == spec_direction(token@),
{
    if eq_str(token, "forward") {
        Ok(Direction::Forward)
    } else if eq_str(token, "backward") {
        Ok(Direction::Backward)
    } else {
        Err(QueryError {
            class: ErrorClass::TransientStateError,
            message: join2("direction: expected :forward or :backward, got :", token),
        })
    }
}

/// A map or set query from a direction token and an optional keyword hash:
/// the direction is checked first, then the keywords, then the prefix, then
/// the edges, the range and the limit.
pub open spec fn spec_key_query(token: Seq<char>, options: Option<Seq<KeywordEntry>>) -> Result<KeyQueryModel, (ErrorClass, Seq<char>)> {
    match spec_direction(token) {
        Err(e) => Err(e),
        Ok(direction) => match options {
            None => Ok(KeyQueryModel {
                direction,
                start: Edge::Unbounded,
                end: Edge::Unbounded,
                range: None,
                prefix: None,
                limit: None,
            }),
            Some(entries) => match spec_collect(entries, true) {
                Err(e) => Err(e),
                Ok(k) => match spec_optional(k.prefix, |v: Arg| spec_key(v.scalar)) {
                    Err(e) => Err(e),
                    Ok(prefix) => match spec_bounds(KeyConverter, k) {
                        Err(e) => Err(e),
                        Ok(b) => Ok(KeyQueryModel {
                            direction,
                            start: b.start,
                            end: b.end,
                            range: b.range,
                            prefix,
                            limit: b.limit,
                        }),
                    },
                },
            },
        },
    }
}

/// Builds a map or set query from a direction token and optional keywords.
///
/// Raises `ArgumentError` for an unknown keyword, both edges of one side, or
/// a limit that is not a positive `Integer`; `TypeError` for a key that is not
/// a `String` or a range that is not a `Range`; a transient state error for an
/// invalid direction token.
pub fn key_query(token: &str, options: Option<Vec<KeywordEntry>>) -> (r: Result<KeyQuery, QueryError>)
    ensures
        result_model(r) == spec_key_query(token@, match options { Some(v) => Some(v@), None => None }),
        r matches Ok(q) ==> (q.limit matches Some(n) ==> n > 0),
{
    let direction = match parse_direction(token) {
        Ok(d) => d,
        Err(e) => {
            return Err(e);
        },
    };
    let options = match options {
        None => {
            return Ok(KeyQuery {
                direction,
                start: Edge::Unbounded,
                end: Edge::Unbounded,
                range: None,
                prefix: None,
                limit: None,
            });
        },
        Some(o) => o,
    };
    let keywords = match collect(&options, true) {
        Ok(k) => k,
        Err(e) => {
            return Err(e);
        },
    };
    let prefix = match &keywords.prefix {
        None => None,
        Some(v) => match KeyConverter.convert("prefix", &v.scalar) {
            Ok(p) => Some(p),
            Err(e) => {
                return Err(e);
            },
        },
    };
    let b = match bounds(&KeyConverter, &keywords) {
        Ok(b) => b,
        Err(e) => {
            return Err(e);
        },
    };
    Ok(KeyQuery { direction, start: b.start, end: b.end, range: b.range, prefix, limit: b.limit })
}

/// A deque query from a direction token and an optional keyword hash.
pub open spec fn spec_position_query(token: Seq<char>, options: Option<Seq<KeywordEntry>>) -> Result<PositionQueryModel, (ErrorClass, Seq<char>)> {
    match spec_direction(token) {
        Err(e) => Err(e),
        Ok(direction) => match options {
            None => Ok(PositionQueryModel {
                direction,
                start: Edge::Unbounded,
                end: Edge::Unbounded,
                range: None,
                limit: None,
            }),
            Some(entries) => match spec_collect(entries, false) {
                Err(e) => Err(e),
                Ok(k) => match spec_bounds(PositionConverter, k) {
                    Err(e) => Err(e),
                    Ok(b) => Ok(PositionQueryModel {
                        direction,
                        start: b.start,
                        end: b.end,
                        range: b.range,
                        limit: b.limit,
                    }),
                },
            },
        },
    }
}

/// Builds a deque query from a direction token and optional keywords.
///
/// Positions count from the front and must be non-negative; a reverse
/// traversal reads from the back. Raises `ArgumentError` for an unknown
/// keyword (deques take no `prefix`), both edges of one side, a position that
/// is not a non-negative `Integer`, or a limit that is not a positive
/// `Integer`; `TypeError` for a range that is not a `Range`.
pub fn position_query(token: &str, options: Option<Vec<KeywordEntry>>) -> (r: Result<PositionQuery, QueryError>)
    ensures
        result_model(r) == spec_position_query(token@, match options { Some(v) => Some(v@), None => None }),
        r matches Ok(q) ==> (q.limit matches Some(n) ==> n > 0),
{
    let direction = match parse_direction(token) {
        Ok(d) => d,
        Err(e) => {
            return Err(e);
        },
    };
    let options = match options {
        None => {
            return Ok(PositionQuery {
                direction,
                start: Edge::Unbounded,
                end: Edge::Unbounded,
                range: None,
                limit: None,
            });
        },
        Some(o) => o,
    };
    let keywords = match collect(&options, false) {
        Ok(k) => k,
        Err(e) => {
            return Err(e);
        },
    };
    let b = match bounds(&PositionConverter, &keywords) {
        Ok(b) => b,
        Err(e) => {
            return Err(e);
        },
    };
    Ok(PositionQuery { direction, start: b.start, end: b.end, range: b.range, limit: b.limit })
}

// ---------------------------------------------------------------------------
// Laws
// ---------------------------------------------------------------------------

/// The option a keyword name fills.
pub open spec fn slot(k: Keywords, name: Seq<char>) -> Option<Arg> {
    if name == "from"@ {
        k.from
    } else if name == "after"@ {
        k.after
    } else if name == "to"@ {
        k.to
    } else if name == "before"@ {
        k.before
    } else if name == "range"@ {
        k.range
    } else if name == "prefix"@ {
        k.prefix
    } else {
        k.limit
    }
}

proof fn lemma_fold_concat(start: Result<Keywords, (ErrorClass, Seq<char>)>, a: Seq<KeywordEntry>, b: Seq<KeywordEntry>, prefix_allowed: bool)
    ensures
        spec_fold(start, a + b, prefix_allowed) == spec_fold(spec_fold(start, a, prefix_allowed), b, prefix_allowed),
    decreases b.len(),
{
    if b.len() == 0 {
        assert(a + b =~= a);
    } else {
        lemma_fold_concat(start, a, b.drop_last(), prefix_allowed);
        assert((a + b).drop_last() =~= a + b.drop_last());
        assert((a + b).last() == b.last());
    }
}

proof fn lemma_fold_err(e: (ErrorClass, Seq<char>), b: Seq<KeywordEntry>, prefix_allowed: bool)
    ensures
        spec_fold(Err(e), b, prefix_allowed) == Err::<Keywords, (ErrorClass, Seq<char>)>(e),
    decreases b.len(),
{
    if b.len() > 0 {
        lemma_fold_err(e, b.drop_last(), prefix_allowed);
    }
}

proof fn lemma_fold_keeps_slot(k0: Keywords, s: Seq<KeywordEntry>, name: Seq<char>, prefix_allowed: bool)
    requires
        is_known_keyword(name, prefix_allowed),
        forall|i: int| 0 <= i < s.len() ==> s[i].name@ != name,
    ensures
        spec_fold(Ok(k0), s, prefix_allowed) matches Ok(k) ==> slot(k, name) == slot(k0, name),
    decreases s.len(),
{
    if s.len() > 0 {
        lemma_fold_keeps_slot(k0, s.drop_last(), name, prefix_allowed);
        assert(s.last().name@ != name);
    }
}

/// Folding a `nil` entry of a known keyword that no other entry names changes
/// nothing.
proof fn lemma_collect_nil_entry(before: Seq<KeywordEntry>, entry: KeywordEntry, after: Seq<KeywordEntry>, prefix_allowed: bool)
    requires
        entry.value is None,
        is_known_keyword(entry.name@, prefix_allowed),
        forall|i: int| 0 <= i < before.len() ==> before[i].name@ != entry.name@,
    ensures
        spec_collect(before + seq![entry] + after, prefix_allowed) == spec_collect(before + after, prefix_allowed),
{
    let start: Result<Keywords, (ErrorClass, Seq<char>)> = Ok(no_keywords());
    lemma_fold_concat(start, before + seq![entry], after, prefix_allowed);
    lemma_fold_concat(start, before, seq![entry], prefix_allowed);
    lemma_fold_concat(start, before, after, prefix_allowed);
    let x = spec_fold(start, before, prefix_allowed);
    assert(seq![entry].drop_last() =~= Seq::<KeywordEntry>::empty());
    match x {
        Ok(k) => {
            lemma_fold_keeps_slot(no_keywords(), before, entry.name@, prefix_allowed);
            assert(slot(k, entry.name@) is None);
            assert(spec_fold(x, seq![entry].drop_last(), prefix_allowed) == x);
            assert(seq![entry].last() == entry);
            assert(spec_fold(x, seq![entry], prefix_allowed) == spec_assign(k, entry, prefix_allowed));
            let n = entry.name@;
            if n == "from"@ {
                assert(Keywords { from: entry.value, ..k } == k);
                assert(spec_assign(k, entry, prefix_allowed) == Ok::<Keywords, (ErrorClass, Seq<char>)>(k));
            } else if n == "after"@ {
                assert(Keywords { after: entry.value, ..k } == k);
                assert(spec_assign(k, entry, prefix_allowed) == Ok::<Keywords, (ErrorClass, Seq<char>)>(k));
            } else if n == "to"@ {
                assert(Keywords { to: entry.value, ..k } == k);
                assert(spec_assign(k, entry, prefix_allowed) == Ok::<Keywords, (ErrorClass, Seq<char>)>(k));
            } else if n == "before"@ {
                assert(Keywords { before: entry.value, ..k } == k);
                assert(spec_assign(k, entry, prefix_allowed) == Ok::<Keywords, (ErrorClass, Seq<char>)>(k));
            } else if n == "range"@ {
                assert(Keywords { range: entry.value, ..k } == k);
                assert(spec_assign(k, entry, prefix_allowed) == Ok::<Keywords, (ErrorClass, Seq<char>)>(k));
            } else if n == "prefix"@ {
                reveal_strlit("prefix");
                reveal_strlit("limit");
                assert("prefix"@[0] == 'p' && "limit"@[0] == 'l');
                assert(Keywords { prefix: entry.value, ..k } == k);
                assert(spec_assign(k, entry, prefix_allowed) == Ok::<Keywords, (ErrorClass, Seq<char>)>(k));
            } else {
                assert(Keywords { limit: entry.value, ..k } == k);
                assert(spec_assign(k, entry, prefix_allowed) == Ok::<Keywords, (ErrorClass, Seq<char>)>(k));
            }
            assert(spec_fold(x, seq![entry], prefix_allowed) == x);
        },
        Err(e) => {
            lemma_fold_err(e, seq![entry], prefix_allowed);
        },
    }
}

/// A `nil` keyword leaves its option unset: a map or set query with a known
/// keyword set to `nil` is the query without that keyword (the keys of a
/// Ruby hash are unique, so no other entry names it).
pub proof fn law_nil_keyword_is_unset(token: Seq<char>, before: Seq<KeywordEntry>, entry: KeywordEntry, after: Seq<KeywordEntry>)
    requires
        entry.value is None,
        is_known_keyword(entry.name@, true),
        forall|i: int| 0 <= i < before.len() ==> before[i].name@ != entry.name@,
    ensures
        spec_key_query(token, Some(before + seq![entry] + after)) == spec_key_query(token, Some(before + after)),
{
    lemma_collect_nil_entry(before, entry, after, true);
}

/// A `nil` keyword leaves its option unset in a deque query too.
pub proof fn law_nil_position_keyword_is_unset(token: Seq<char>, before: Seq<KeywordEntry>, entry: KeywordEntry, after: Seq<KeywordEntry>)
    requires
        entry.value is None,
        is_known_keyword(entry.name@, false),
        forall|i: int| 0 <= i < before.len() ==> before[i].name@ != entry.name@,
    ensures
        spec_position_query(token, Some(before + seq![entry] + after)) == spec_position_query(token, Some(before + after)),
{
    lemma_collect_nil_entry(before, entry, after, false);
}

proof fn lemma_direction_tokens()
    ensures
        spec_direction("forward"@) == Ok::<Direction, (ErrorClass, Seq<char>)>(Direction::Forward),
        spec_direction("backward"@) == Ok::<Direction, (ErrorClass, Seq<char>)>(Direction::Backward),
{
    reveal_strlit("forward");
    reveal_strlit("backward");
    assert("forward"@[0] == 'f');
    assert("backward"@[0] == 'b');
}

/// The direction changes only the direction: a forward and a backward map or
/// set query over the same keywords select by the same edges, range, prefix
/// and limit, and fail with the same error.
pub proof fn law_direction_keeps_selection(options: Option<Seq<KeywordEntry>>)
    ensures
        match (spec_key_query("forward"@, options), spec_key_query("backward"@, options)) {
            (Ok(f), Ok(b)) => f.direction == Direction::Forward && b.direction == Direction::Backward
                && f.start == b.start && f.end == b.end && f.range == b.range && f.prefix == b.prefix
                && f.limit == b.limit,
            (Err(e1), Err(e2)) => e1 == e2,
            _ => false,
        },
{
    lemma_direction_tokens();
}

/// The same for deque queries.
pub proof fn law_direction_keeps_positions(options: Option<Seq<KeywordEntry>>)
    ensures
        match (spec_position_query("forward"@, options), spec_position_query("backward"@, options)) {
            (Ok(f), Ok(b)) => f.direction == Direction::Forward && b.direction == Direction::Backward
                && f.start == b.start && f.end == b.end && f.range == b.range && f.limit == b.limit,
            (Err(e1), Err(e2)) => e1 == e2,
            _ => false,
        },
{
    lemma_direction_tokens();
}

/// The inclusive and exclusive edges of one side exclude each other: a hash
/// that sets both `from` and `after`, or both `to` and `before`, never gives
/// a query.
pub proof fn law_edges_of_one_side_exclude(token: Seq<char>, entries: Seq<KeywordEntry>)
    requires
        spec_collect(entries, true) matches Ok(k) && ((k.from is Some && k.after is Some) || (k.to is Some && k.before is Some)),
    ensures
        spec_key_query(token, Some(entries)) is Err,
{
}

/// The same for deque queries.
pub proof fn law_position_edges_of_one_side_exclude(token: Seq<char>, entries: Seq<KeywordEntry>)
    requires
        spec_collect(entries, false) matches Ok(k) && ((k.from is Some && k.after is Some) || (k.to is Some && k.before is Some)),
    ensures
        spec_position_query(token, Some(entries)) is Err,
{
}

proof fn lemma_keyword_names_differ()
    ensures
        "from"@[0] == 'f', "after"@[0] == 'a', "to"@[0] == 't', "before"@[0] == 'b',
        "range"@[0] == 'r', "prefix"@[0] == 'p', "limit"@[0] == 'l',
        "from"@.len() > 0, "after"@.len() > 0, "to"@.len() > 0, "before"@.len() > 0,
        "range"@.len() > 0, "prefix"@.len() > 0, "limit"@.len() > 0,
{
    reveal_strlit("from");
    reveal_strlit("after");
    reveal_strlit("to");
    reveal_strlit("before");
    reveal_strlit("range");
    reveal_strlit("prefix");
    reveal_strlit("limit");
}

/// Assigning a known keyword fills its option with the entry's value.
proof fn lemma_assign_slot(k: Keywords, e: KeywordEntry, prefix_allowed: bool)
    requires
        is_known_keyword(e.name@, prefix_allowed),
    ensures
        spec_assign(k, e, prefix_allowed) matches Ok(k2) && slot(k2, e.name@) == e.value,
{
    lemma_keyword_names_differ();
    let n = e.name@;
    if n == "from"@ {
    } else if n == "after"@ {
        assert(n[0] != "from"@[0]);
    } else if n == "to"@ {
        assert(n[0] != "from"@[0] && n[0] != "after"@[0]);
    } else if n == "before"@ {
        assert(n[0] != "from"@[0] && n[0] != "after"@[0] && n[0] != "to"@[0]);
    } else if n == "range"@ {
        assert(n[0] != "from"@[0] && n[0] != "after"@[0] && n[0] != "to"@[0] && n[0] != "before"@[0]);
    } else if n == "prefix"@ {
        assert(n[0] != "from"@[0] && n[0] != "after"@[0] && n[0] != "to"@[0] && n[0] != "before"@[0]
            && n[0] != "range"@[0]);
    } else {
        assert(n == "limit"@);
        assert(n[0] != "from"@[0] && n[0] != "after"@[0] && n[0] != "to"@[0] && n[0] != "before"@[0]
            && n[0] != "range"@[0] && n[0] != "prefix"@[0]);
    }
}

/// In an accepted keyword hash, the option a known keyword names holds the
/// value of the one entry with that name.
proof fn lemma_collect_entry(before: Seq<KeywordEntry>, e: KeywordEntry, after: Seq<KeywordEntry>, prefix_allowed: bool)
    requires
        is_known_keyword(e.name@, prefix_allowed),
        forall|i: int| 0 <= i < before.len() ==> before[i].name@ != e.name@,
        forall|i: int| 0 <= i < after.len() ==> after[i].name@ != e.name@,
        spec_collect(before + seq![e] + after, prefix_allowed) is Ok,
    ensures
        slot(spec_collect(before + seq![e] + after, prefix_allowed)->Ok_0, e.name@) == e.value,
{
    let start: Result<Keywords, (ErrorClass, Seq<char>)> = Ok(no_keywords());
    lemma_fold_concat(start, before + seq![e], after, prefix_allowed);
    lemma_fold_concat(start, before, seq![e], prefix_allowed);
    let x = spec_fold(start, before, prefix_allowed);
    assert(seq![e].drop_last() =~= Seq::<KeywordEntry>::empty());
    assert(seq![e].last() == e);
    match x {
        Ok(k1) => {
            lemma_assign_slot(k1, e, prefix_allowed);
            let k2 = spec_assign(k1, e, prefix_allowed)->Ok_0;
            assert(spec_fold(x, seq![e].drop_last(), prefix_allowed) == x);
            assert(spec_fold(x, seq![e], prefix_allowed) == Ok::<Keywords, (ErrorClass, Seq<char>)>(k2));
            lemma_fold_keeps_slot(k2, after, e.name@, prefix_allowed);
        },
        Err(err) => {
            lemma_fold_err(err, seq![e], prefix_allowed);
            lemma_fold_err(err, after, prefix_allowed);
        },
    }
}

/// A limit is kept: when a deque query's keyword hash gives `limit` a
/// positive `Integer` n and the query is accepted, the query returns at most
/// n items (its limit is n).
pub proof fn law_position_limit_is_kept(token: Seq<char>, before: Seq<KeywordEntry>, e: KeywordEntry, after: Seq<KeywordEntry>, n: u64)
    requires
        e.name@ == "limit"@,
        e.value matches Some(a) && a.scalar.as_integer == Some(IntegerArg::NonNegative(n)),
        0 < n <= usize::MAX,
        forall|i: int| 0 <= i < before.len() ==> before[i].name@ != "limit"@,
        forall|i: int| 0 <= i < after.len() ==> after[i].name@ != "limit"@,
        spec_position_query(token, Some(before + seq![e] + after)) is Ok,
    ensures
        spec_position_query(token, Some(before + seq![e] + after))->Ok_0.limit == Some(n as usize),
{
    lemma_collect_entry(before, e, after, false);
    lemma_keyword_names_differ();
    let k = spec_collect(before + seq![e] + after, false)->Ok_0;
    assert("limit"@ != "from"@ && "limit"@ != "after"@ && "limit"@ != "to"@ && "limit"@ != "before"@
        && "limit"@ != "range"@ && "limit"@ != "prefix"@) by {
        assert("limit"@[0] != "from"@[0]);
        assert("limit"@[0] != "after"@[0]);
        assert("limit"@[0] != "to"@[0]);
        assert("limit"@[0] != "before"@[0]);
        assert("limit"@[0] != "range"@[0]);
        assert("limit"@[0] != "prefix"@[0]);
    }
    assert(k.limit == e.value);
}

/// The same for map and set queries.
pub proof fn law_key_limit_is_kept(token: Seq<char>, before: Seq<KeywordEntry>, e: KeywordEntry, after: Seq<KeywordEntry>, n: u64)
    requires
        e.name@ == "limit"@,
        e.value matches Some(a) && a.scalar.as_integer == Some(IntegerArg::NonNegative(n)),
        0 < n <= usize::MAX,
        forall|i: int| 0 <= i < before.len() ==> before[i].name@ != "limit"@,
        forall|i: int| 0 <= i < after.len() ==> after[i].name@ != "limit"@,
        spec_key_query(token, Some(before + seq![e] + after)) is Ok,
    ensures
        spec_key_query(token, Some(before + seq![e] + after))->Ok_0.limit == Some(n as usize),
{
    lemma_collect_entry(before, e, after, true);
    lemma_keyword_names_differ();
    let k = spec_collect(before + seq![e] + after, true)->Ok_0;
    assert("limit"@ != "from"@ && "limit"@ != "after"@ && "limit"@ != "to"@ && "limit"@ != "before"@
        && "limit"@ != "range"@ && "limit"@ != "prefix"@) by {
        assert("limit"@[0] != "from"@[0]);
        assert("limit"@[0] != "after"@[0]);
        assert("limit"@[0] != "to"@[0]);
        assert("limit"@[0] != "before"@[0]);
        assert("limit"@[0] != "range"@[0]);
        assert("limit"@[0] != "prefix"@[0]);
    }
    assert(k.limit == e.value);
}

proof fn lemma_range_is_not_limit()
    ensures
        "range"@ != "from"@, "range"@ != "after"@, "range"@ != "to"@, "range"@ != "before"@,
{
    lemma_keyword_names_differ();
    assert("range"@[0] != "from"@[0]);
    assert("range"@[0] != "after"@[0]);
    assert("range"@[0] != "to"@[0]);
    assert("range"@[0] != "before"@[0]);
}

/// A `range:` keeps both of its ends: in an accepted map or set query, a
/// Range with a begin selects from that key on (inclusive), a `nil` begin
/// leaves the low side open, an end bounds the high side (excluded for
/// `...`, included for `..`), and a `nil` end leaves it open.
pub proof fn law_key_range_keeps_its_ends(token: Seq<char>, before: Seq<KeywordEntry>, e: KeywordEntry, after: Seq<KeywordEntry>)
    requires
        e.name@ == "range"@,
        e.value matches Some(a) && a.range is Some,
        forall|i: int| 0 <= i < before.len() ==> before[i].name@ != "range"@,
        forall|i: int| 0 <= i < after.len() ==> after[i].name@ != "range"@,
        spec_key_query(token, Some(before + seq![e] + after)) is Ok,
    ensures
        ({
            let r = e.value->Some_0.range->Some_0;
            let q = spec_key_query(token, Some(before + seq![e] + after))->Ok_0;
            &&& q.range matches Some((lo, hi)) && {
                &&& r.low matches Some(b) ==> b.as_string is Ok && lo == Edge::Included(b.as_string->Ok_0@)
                &&& r.low is None ==> lo == Edge::<Seq<char>>::Unbounded
                &&& r.high matches Some(h) ==> h.as_string is Ok && hi == (if r.exclusive {
                    Edge::Excluded(h.as_string->Ok_0@)
                } else {
                    Edge::Included(h.as_string->Ok_0@)
                })
                &&& r.high is None ==> hi == Edge::<Seq<char>>::Unbounded
            }
        }),
{
    lemma_collect_entry(before, e, after, true);
    lemma_range_is_not_limit();
    let k = spec_collect(before + seq![e] + after, true)->Ok_0;
    assert(k.range == e.value);
}

/// The same for deque queries: a Range of positions keeps both ends.
pub proof fn law_position_range_keeps_its_ends(token: Seq<char>, before: Seq<KeywordEntry>, e: KeywordEntry, after: Seq<KeywordEntry>)
    requires
        e.name@ == "range"@,
        e.value matches Some(a) && a.range is Some,
        forall|i: int| 0 <= i < before.len() ==> before[i].name@ != "range"@,
        forall|i: int| 0 <= i < after.len() ==> after[i].name@ != "range"@,
        spec_position_query(token, Some(before + seq![e] + after)) is Ok,
    ensures
        ({
            let r = e.value->Some_0.range->Some_0;
            let q = spec_position_query(token, Some(before + seq![e] + after))->Ok_0;
            &&& q.range matches Some((lo, hi)) && {
                &&& r.low matches Some(b) ==> b.as_integer matches Some(IntegerArg::NonNegative(n))
                    && lo == Edge::Included(n as usize)
                &&& r.low is None ==> lo == Edge::<usize>::Unbounded
                &&& r.high matches Some(h) ==> h.as_integer matches Some(IntegerArg::NonNegative(n))
                    && hi == (if r.exclusive { Edge::Excluded(n as usize) } else { Edge::Included(n as usize) })
                &&& r.high is None ==> hi == Edge::<usize>::Unbounded
            }
        }),
{
    lemma_collect_entry(before, e, after, false);
    lemma_range_is_not_limit();
    let k = spec_collect(before + seq![e] + after, false)->Ok_0;
    assert(k.range == e.value);
}

proof fn lemma_edge_names_differ()
    ensures
        "from"@ != "after"@, "from"@ != "to"@, "from"@ != "before"@, "from"@ != "range"@, "from"@ != "prefix"@,
        "after"@ != "to"@, "after"@ != "before"@, "after"@ != "range"@, "after"@ != "prefix"@,
        "to"@ != "before"@, "to"@ != "range"@, "to"@ != "prefix"@,
        "before"@ != "range"@, "before"@ != "prefix"@, "range"@ != "prefix"@,
{
    lemma_keyword_names_differ();
    assert("from"@[0] != "after"@[0] && "from"@[0] != "to"@[0] && "from"@[0] != "before"@[0]);
    assert("from"@[0] != "range"@[0] && "from"@[0] != "prefix"@[0]);
    assert("after"@[0] != "to"@[0] && "after"@[0] != "before"@[0] && "after"@[0] != "range"@[0]);
    assert("after"@[0] != "prefix"@[0] && "to"@[0] != "before"@[0] && "to"@[0] != "range"@[0]);
    assert("to"@[0] != "prefix"@[0] && "before"@[0] != "range"@[0] && "before"@[0] != "prefix"@[0]);
    assert("range"@[0] != "prefix"@[0]);
}

/// The edges and prefix of a map or set query are the keywords given: in an
/// accepted query, `from: k` starts the selection at key k inclusive,
/// `after: k` just past it, `to: k` ends it at k inclusive, `before: k` just
/// before it, and `prefix: p` keeps only keys starting with p.
pub proof fn law_key_edges_are_kept(token: Seq<char>, before: Seq<KeywordEntry>, e: KeywordEntry, after: Seq<KeywordEntry>)
    requires
        e.name@ == "from"@ || e.name@ == "after"@ || e.name@ == "to"@ || e.name@ == "before"@ || e.name@ == "prefix"@,
        e.value is Some,
        forall|i: int| 0 <= i < before.len() ==> before[i].name@ != e.name@,
        forall|i: int| 0 <= i < after.len() ==> after[i].name@ != e.name@,
        spec_key_query(token, Some(before + seq![e] + after)) is Ok,
    ensures
        ({
            let v = e.value->Some_0.scalar.as_string;
            let q = spec_key_query(token, Some(before + seq![e] + after))->Ok_0;
            &&& v is Ok
            &&& e.name@ == "from"@ ==> q.start == Edge::Included(v->Ok_0@)
            &&& e.name@ == "after"@ ==> q.start == Edge::Excluded(v->Ok_0@)
            &&& e.name@ == "to"@ ==> q.end == Edge::Included(v->Ok_0@)
            &&& e.name@ == "before"@ ==> q.end == Edge::Excluded(v->Ok_0@)
            &&& e.name@ == "prefix"@ ==> q.prefix == Some(v->Ok_0@)
        }),
{
    lemma_collect_entry(before, e, after, true);
    lemma_edge_names_differ();
}

/// The edges of a deque query are the positions given: in an accepted query,
/// `from: n` starts at position n inclusive, `after: n` just past it, `to: n`
/// ends at n inclusive, and `before: n` just before it.
pub proof fn law_position_edges_are_kept(token: Seq<char>, before: Seq<KeywordEntry>, e: KeywordEntry, after: Seq<KeywordEntry>)
    requires
        e.name@ == "from"@ || e.name@ == "after"@ || e.name@ == "to"@ || e.name@ == "before"@,
        e.value is Some,
        forall|i: int| 0 <= i < before.len() ==> before[i].name@ != e.name@,
        forall|i: int| 0 <= i < after.len() ==> after[i].name@ != e.name@,
        spec_position_query(token, Some(before + seq![e] + after)) is Ok,
    ensures
        ({
            let v = e.value->Some_0.scalar.as_integer;
            let q = spec_position_query(token, Some(before + seq![e] + after))->Ok_0;
            &&& v matches Some(IntegerArg::NonNegative(n)) && n <= usize::MAX && {
                &&& e.name@ == "from"@ ==> q.start == Edge::Included(n as usize)
                &&& e.name@ == "after"@ ==> q.start == Edge::Excluded(n as usize)
                &&& e.name@ == "to"@ ==> q.end == Edge::Included(n as usize)
                &&& e.name@ == "before"@ ==> q.end == Edge::Excluded(n as usize)
            }
        }),
{
    lemma_collect_entry(before, e, after, false);
    lemma_edge_names_differ();
}

/// Leaving a keyword out leaves its option unset: an accepted map or set
/// query whose keywords name no edge of a side, no range, no prefix or no
/// limit has that side unbounded, no range, no prefix or no limit.
pub proof fn law_key_options_left_out_are_unset(token: Seq<char>, entries: Seq<KeywordEntry>)
    requires
        spec_key_query(token, Some(entries)) is Ok,
    ensures
        ({
            let q = spec_key_query(token, Some(entries))->Ok_0;
            let absent = |n: Seq<char>| forall|i: int| 0 <= i < entries.len() ==> #[trigger] entries[i].name@ != n;
            &&& absent("from"@) && absent("after"@) ==> q.start == Edge::<Seq<char>>::Unbounded
            &&& absent("to"@) && absent("before"@) ==> q.end == Edge::<Seq<char>>::Unbounded
            &&& absent("range"@) ==> q.range is None
            &&& absent("prefix"@) ==> q.prefix is None
            &&& absent("limit"@) ==> q.limit is None
        }),
{
    lemma_keyword_names_differ();
    lemma_edge_names_differ();
    let k0 = no_keywords();
    let names = seq!["from"@, "after"@, "to"@, "before"@, "range"@, "prefix"@, "limit"@];
    assert forall|j: int| 0 <= j < 7 implies {
        let n = #[trigger] names[j];
        (forall|i: int| 0 <= i < entries.len() ==> #[trigger] entries[i].name@ != n)
            ==> slot(spec_collect(entries, true)->Ok_0, n) is None
    } by {
        let n = names[j];
        if forall|i: int| 0 <= i < entries.len() ==> #[trigger] entries[i].name@ != n {
            lemma_fold_keeps_slot(k0, entries, n, true);
        }
    }
    assert(names[0] == "from"@ && names[1] == "after"@ && names[2] == "to"@ && names[3] == "before"@);
    assert(names[4] == "range"@ && names[5] == "prefix"@ && names[6] == "limit"@);
}

/// A hash of one keyword holds just that keyword.
proof fn lemma_collect_one(e: KeywordEntry, prefix_allowed: bool)
    ensures
        spec_collect(seq![e], prefix_allowed) == spec_assign(no_keywords(), e, prefix_allowed),
{
    let start: Result<Keywords, (ErrorClass, Seq<char>)> = Ok(no_keywords());
    assert(seq![e].drop_last() =~= Seq::<KeywordEntry>::empty());
    assert(seq![e].last() == e);
    assert(spec_fold(start, seq![e].drop_last(), prefix_allowed) == start);
}

/// A positive limit on its own is accepted: `scan(direction, limit: n)` on a
/// deque, a map or a set gives the whole collection in that direction,
/// capped at n items.
pub proof fn law_limit_alone_is_accepted(token: Seq<char>, e: KeywordEntry, n: u64)
    requires
        token == "forward"@ || token == "backward"@,
        e.name@ == "limit"@,
        e.value matches Some(a) && a.scalar.as_integer == Some(IntegerArg::NonNegative(n)),
        0 < n <= usize::MAX,
    ensures
        spec_position_query(token, Some(seq![e])) matches Ok(q) && q.start == Edge::<usize>::Unbounded
            && q.end == Edge::<usize>::Unbounded && q.range is None && q.limit == Some(n as usize),
        spec_key_query(token, Some(seq![e])) matches Ok(q) && q.start == Edge::<Seq<char>>::Unbounded
            && q.end == Edge::<Seq<char>>::Unbounded && q.range is None && q.prefix is None
            && q.limit == Some(n as usize),
{
    lemma_direction_tokens();
    lemma_keyword_names_differ();
    lemma_collect_one(e, false);
    lemma_collect_one(e, true);
    assert("limit"@[0] != "from"@[0] && "limit"@[0] != "after"@[0] && "limit"@[0] != "to"@[0]);
    assert("limit"@[0] != "before"@[0] && "limit"@[0] != "range"@[0] && "limit"@[0] != "prefix"@[0]);
}

/// A range on its own is accepted when its ends are keys: `scan(direction,
/// range: b..e)` on a map or a set selects from key b inclusive (or from the
/// first key when b is `nil`) up to key e, excluded for `...` and included
/// for `..` (or to the last key when e is `nil`).
pub proof fn law_key_range_alone_is_accepted(token: Seq<char>, e: KeywordEntry)
    requires
        token == "forward"@ || token == "backward"@,
        e.name@ == "range"@,
        e.value matches Some(a) && a.range matches Some(r)
            && (r.low matches Some(b) ==> b.as_string is Ok)
            && (r.high matches Some(h) ==> h.as_string is Ok),
    ensures
        ({
            let r = e.value->Some_0.range->Some_0;
            let lo = match r.low {
                Some(b) => Edge::Included(b.as_string->Ok_0@),
                None => Edge::Unbounded,
            };
            let hi = match r.high {
                Some(h) => if r.exclusive { Edge::Excluded(h.as_string->Ok_0@) } else { Edge::Included(h.as_string->Ok_0@) },
                None => Edge::Unbounded,
            };
            spec_key_query(token, Some(seq![e])) matches Ok(q) && q.start == Edge::<Seq<char>>::Unbounded
                && q.end == Edge::<Seq<char>>::Unbounded && q.range == Some((lo, hi)) && q.prefix is None
                && q.limit is None
        }),
{
    lemma_direction_tokens();
    lemma_collect_one(e, true);
    lemma_range_is_not_limit();
}

/// The same for deque positions: `scan(direction, range: b..e)` with
/// non-negative Integer ends selects from position b inclusive up to
/// position e, excluded for `...` and included for `..`; a `nil` end leaves
/// its side open.
pub proof fn law_position_range_alone_is_accepted(token: Seq<char>, e: KeywordEntry)
    requires
        token == "forward"@ || token == "backward"@,
        e.name@ == "range"@,
        e.value matches Some(a) && a.range matches Some(r)
            && (r.low matches Some(b) ==> b.as_integer matches Some(IntegerArg::NonNegative(n)) && n <= usize::MAX)
            && (r.high matches Some(h) ==> h.as_integer matches Some(IntegerArg::NonNegative(n)) && n <= usize::MAX),
    ensures
        ({
            let r = e.value->Some_0.range->Some_0;
            let lo = match r.low {
                Some(b) => Edge::Included(b.as_integer->Some_0->NonNegative_0 as usize),
                None => Edge::Unbounded,
            };
            let hi = match r.high {
                Some(h) => {
                    let n = h.as_integer->Some_0->NonNegative_0 as usize;
                    if r.exclusive { Edge::Excluded(n) } else { Edge::Included(n) }
                },
                None => Edge::Unbounded,
            };
            spec_position_query(token, Some(seq![e])) matches Ok(q) && q.start == Edge::<usize>::Unbounded
                && q.end == Edge::<usize>::Unbounded && q.range == Some((lo, hi)) && q.limit is None
        }),
{
    lemma_direction_tokens();
    lemma_collect_one(e, false);
    lemma_range_is_not_limit();
}

} // verus!

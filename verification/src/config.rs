//! Validation of the client configuration that the native layer owns: the
//! processing mode, the health-probe port, the deduplication cache, and the
//! keyed-state options and collection declarations.
//!
//! Numbers that Ruby hands over as floating-point values arrive already
//! classified (see [`NumberArg`]), so that a fractional, negative or
//! non-finite value reaches the whole-number check instead of being truncated.

use crate::text::{decimal, format_unsigned, join2, join3};
use vstd::prelude::*;

verus! {

/// Names the text that `Debug` writes for a string: the string between double
/// quotes, with quotes, backslashes and control characters escaped.
pub uninterp spec fn debug_text(s: Seq<char>) -> Seq<char>;

/// `format!("{:?}", s)`: the `Debug` text of a string.
#[verifier::external_body]
pub(crate) fn debug_quote(s: &str) -> (r: String)
    ensures
        r@ == debug_text(s@),
{
    format!("{:?}", s)
}

/// A number that Ruby passed as a float, as the whole-number check reads it.
#[derive(Debug, Clone, Copy, PartialEq, Eq, Structural)]
pub enum NumberArg {
    /// A finite value without fractional part that fits in `i64`.
    Whole(i64),
    /// Any other value: fractional, non-finite, or beyond `i64`.
    NotWhole,
}

/// The message for a number that is not a whole number in `min..=max`.
pub open spec fn whole_number_message(field: Seq<char>, min: nat, max: nat) -> Seq<char> {
    field + ": must be a whole number in "@ + decimal(min) + "..="@ + decimal(max)
}

/// The whole number a value names, when it lies in `min..=max`.
pub open spec fn spec_whole_number(value: NumberArg, field: Seq<char>, min: u32, max: u32) -> Result<u32, Seq<char>> {
    match value {
        NumberArg::Whole(v) if min <= v <= max => Ok(v as u32),
        _ => Err(whole_number_message(field, min as nat, max as nat)),
    }
}

pub open spec fn string_result<T>(r: Result<T, String>) -> Result<T, Seq<char>> {
    match r {
        Ok(t) => Ok(t),
        Err(e) => Err(e@),
    }
}

/// Validates a numeric field as a whole number within `min..=max`.
pub fn whole_number_field(value: NumberArg, field: &str, min: u32, max: u32) -> (r: Result<u32, String>)
    ensures
        string_result(r) == spec_whole_number(value, field@, min, max),
{
    match value {
        NumberArg::Whole(v) => {
            if min as i64 <= v && v <= max as i64 {
                return Ok(v as u32);
            }
        },
        NumberArg::NotWhole => {},
    }
    let low = format_unsigned(min as u128);
    let high = format_unsigned(max as u128);
    let mut m = join3(field, ": must be a whole number in ", low.as_str());
    m.append("..=");
    m.append(high.as_str());
    Err(m)
}

// ---------------------------------------------------------------------------
// Mode, probe port, deduplication
// ---------------------------------------------------------------------------

/// The processing mode of the client.
#[derive(Debug, Clone, Copy, PartialEq, Eq, Structural)]
pub enum Mode {
    /// Retries failures indefinitely, keeping order (the default).
    Pipeline,
    /// Sends persistently failing messages to the failure topic.
    LowLatency,
    /// Logs failures and moves on.
    BestEffort,
}

/// The mode a `mode` option names; an unset option is `pipeline`.
pub open spec fn spec_mode(mode: Option<Seq<char>>) -> Result<Mode, Seq<char>> {
    match mode {
        None => Ok(Mode::Pipeline),
        Some(m) => if m == "pipeline"@ {
            Ok(Mode::Pipeline)
        } else if m == "low_latency"@ {
            Ok(Mode::LowLatency)
        } else if m == "best_effort"@ {
            Ok(Mode::BestEffort)
        } else {
            Err("unrecognized mode: "@ + m)
        },
    }
}

/// Parses the `mode` option.
pub fn parse_mode(mode: &Option<String>) -> (r: Result<Mode, String>)
    ensures
        string_result(r) == spec_mode(match mode { Some(m) => Some(m@), None => None }),
{
    match mode {
        None => Ok(Mode::Pipeline),
        Some(m) => {
            let m = m.as_str();
            if crate::text::eq_str(m, "pipeline") {
                Ok(Mode::Pipeline)
            } else if crate::text::eq_str(m, "low_latency") {
                Ok(Mode::LowLatency)
            } else if crate::text::eq_str(m, "best_effort") {
                Ok(Mode::BestEffort)
            } else {
                Err(join2("unrecognized mode: ", m))
            }
        },
    }
}

/// Configuration for the health probe port.
#[derive(Debug, Clone, Copy, PartialEq, Eq, Structural)]
pub enum ProbePort {
    /// Use the default configuration.
    Unconfigured,
    /// Explicitly disable the probe port.
    Disabled,
    /// Use a specific port number.
    Configured(u16),
}

/// A `probe_port` value as Ruby passed it.
#[derive(Debug, Clone, Copy, PartialEq, Eq, Structural)]
pub enum ProbePortArg {
    /// A port number.
    Port(u16),
    /// `true` or `false`.
    Flag(bool),
    /// `nil`.
    Unit,
}

/// Reads a probe port setting: a port number configures it, `false`
/// disables it, and `true` or `nil` keep the default.
pub fn probe_port_from(arg: ProbePortArg) -> (r: ProbePort)
    ensures
        r == (match arg {
            ProbePortArg::Port(p) => ProbePort::Configured(p),
            ProbePortArg::Flag(true) => ProbePort::Unconfigured,
            ProbePortArg::Flag(false) => ProbePort::Disabled,
            ProbePortArg::Unit => ProbePort::Unconfigured,
        }),
{
    match arg {
        ProbePortArg::Port(port) => ProbePort::Configured(port),
        ProbePortArg::Flag(enabled) => if enabled {
            ProbePort::Unconfigured
        } else {
            ProbePort::Disabled
        },
        ProbePortArg::Unit => ProbePort::Unconfigured,
    }
}

/// What a probe port setting does to the consumer's probe port: `None` keeps
/// the default, `Some(None)` disables the probe server, `Some(Some(p))`
/// serves on port `p`.
pub fn probe_port_setting(port: Option<ProbePort>) -> (r: Option<Option<u16>>)
    ensures
        r == (match port {
            None => None,
            Some(ProbePort::Unconfigured) => None,
            Some(ProbePort::Disabled) => Some(None),
            Some(ProbePort::Configured(p)) => Some(Some(p)),
        }),
{
    match port {
        None => None,
        Some(ProbePort::Unconfigured) => None,
        Some(ProbePort::Disabled) => Some(None),
        Some(ProbePort::Configured(p)) => Some(Some(p)),
    }
}

/// The deduplication cache capacity to configure. Consumer deduplication is
/// mandatory, so an explicit `idempotence_cache_size` of `0` is rejected
/// rather than silently defaulted.
pub fn dedup_cache_capacity(size: Option<u32>) -> (r: Result<Option<usize>, String>)
    ensures
        size == Some(0u32) ==> string_result(r) == Err::<Option<usize>, Seq<char>>(
            "idempotence_cache_size must be greater than 0"@,
        ),
        match size {
            Some(n) => n > 0 ==> r == Ok::<Option<usize>, String>(Some(n as usize)),
            None => r == Ok::<Option<usize>, String>(None),
        },
{
    match size {
        None => Ok(None),
        Some(n) => if n == 0 {
            Err(String::from_str("idempotence_cache_size must be greater than 0"))
        } else {
            Ok(Some(n as usize))
        },
    }
}

/// Whether the Kafka loader tuning knobs (cache size, seek timeout, discard
/// threshold) are routed onto the consumer: only when at least one is set.
pub fn loader_configured(cache_size: bool, seek_timeout: bool, discard_threshold: bool) -> (r: bool)
    ensures
        r == (cache_size || seek_timeout || discard_threshold),
{
    cache_size || seek_timeout || discard_threshold
}

} // verus!

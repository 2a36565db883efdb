//! Numeric and time normalization: lossless widening of `u64` counters into
//! integral decimals, and clamping conversion of epoch offsets into
//! storage-safe calendar timestamps.

use vstd::prelude::*;

verus! {

/// Largest epoch-second value the storage layer's timestamp columns accept:
/// 9999-12-31T23:59:59 UTC. Offsets past this bound are clamped to it.
pub const MAX_TIMESTAMP_SECS: u64 = 253_402_300_799;

/// Microseconds in one second.
pub const MICROS_PER_SECOND: u64 = 1_000_000;

/// A non-fatal condition met during normalization. The normalizers stay free
/// of side effects: instead of writing to a log themselves they append these
/// to a caller-supplied sink, and the caller decides how to report them.
#[derive(Clone, Copy, Debug, PartialEq, Eq, Structural)]
pub enum Warning {
    /// A module's bytecode carried no usable ABI: the structural parse failed
    /// or the parsed module had no ABI section.
    AbiDecodeFailed,
    /// A timestamp offset fell outside the representable range and was
    /// clamped; `version` identifies the transaction it came from.
    TimestampOutOfRange { version: i64 },
}

/// An integral value of an arbitrary-precision decimal column. Every value
/// this layer produces is the lossless widening of a `u64` (gas amounts,
/// unit prices), so the whole value is carried as its `u64` units.
#[derive(Clone, Copy, Debug, PartialEq, Eq, Structural)]
pub struct Decimal {
    pub units: u64,
}

impl Decimal {
    /// Reads the integral value back out of the decimal.
    pub fn to_u64(&self) -> (r: u64)
        ensures
            r == self.units,
    {
        self.units
    }
}

/// Losslessly widens a `u64` into a `Decimal`; never fails.
pub fn to_decimal(x: u64) -> (r: Decimal)
    ensures
        r == spec_to_decimal(x),
{
    Decimal { units: x }
}

/// What `to_decimal` returns.
pub open spec fn spec_to_decimal(x: u64) -> Decimal {
    Decimal { units: x }
}

/// Law: widening a `u64` into a `Decimal` and reading the value back yields
/// the original input — the conversion loses no precision.
pub proof fn lemma_decimal_round_trip(x: u64)
    ensures
        spec_to_decimal(x).units == x,
{
}

/// A calendar timestamp as the storage layer holds it: whole seconds since
/// the Unix epoch and microseconds within the second, within the range the
/// timestamp columns accept.
#[derive(Clone, Copy, Debug, PartialEq, Eq, Structural)]
pub struct Timestamp {
    pub secs: u64,
    pub micros: u32,
}

impl Timestamp {
    /// The range every stored timestamp lies in.
    pub open spec fn well_formed(self) -> bool {
        self.secs <= MAX_TIMESTAMP_SECS && self.micros < MICROS_PER_SECOND
    }

    /// The largest representable timestamp: the clamp ceiling.
    pub open spec fn spec_max() -> Timestamp {
        Timestamp { secs: MAX_TIMESTAMP_SECS, micros: (MICROS_PER_SECOND - 1) as u32 }
    }

    /// The largest representable timestamp, as a value.
    pub fn max() -> (r: Timestamp)
        ensures
            r == Timestamp::spec_max(),
    {
        Timestamp { secs: MAX_TIMESTAMP_SECS, micros: 999_999 }
    }

    /// What `from_parts` returns: the reading forced into range.
    pub open spec fn spec_from_parts(reading: Option<(u64, u32)>) -> Timestamp {
        match reading {
            None => Timestamp { secs: 0, micros: 0 },
            Some((secs, micros)) => Timestamp {
                secs: if secs > MAX_TIMESTAMP_SECS {
                    MAX_TIMESTAMP_SECS
                } else {
                    secs
                },
                micros: if micros >= MICROS_PER_SECOND {
                    (MICROS_PER_SECOND - 1) as u32
                } else {
                    micros
                },
            },
        }
    }

    /// Forces a clock reading — seconds since the Unix epoch and microseconds
    /// within the second, or nothing when the host clock could give none (it
    /// read before the epoch) — into the representable range: a missing
    /// reading becomes the epoch itself, seconds past the ceiling become the
    /// ceiling, and an overlong microsecond count becomes the last
    /// representable microsecond.
    pub fn from_parts(reading: Option<(u64, u32)>) -> (r: Timestamp)
        ensures
            r == Timestamp::spec_from_parts(reading),
            r.well_formed(),
    {
        match reading {
            None => Timestamp { secs: 0, micros: 0 },
            Some((secs, micros)) => {
                let s: u64 = if secs > MAX_TIMESTAMP_SECS {
                    MAX_TIMESTAMP_SECS
                } else {
                    secs
                };
                let m: u32 = if micros >= 1_000_000 {
                    999_999
                } else {
                    micros
                };
                Timestamp { secs: s, micros: m }
            },
        }
    }
}

/// The warnings one clamping conversion of an epoch-second offset appends:
/// none in range, exactly one past the ceiling.
pub open spec fn spec_secs_warnings(ts: u64, version: i64) -> Seq<Warning> {
    if ts <= MAX_TIMESTAMP_SECS {
        Seq::empty()
    } else {
        seq![Warning::TimestampOutOfRange { version }]
    }
}

/// What `parse_timestamp_secs` returns.
pub open spec fn spec_parse_timestamp_secs(ts: u64) -> Timestamp {
    if ts <= MAX_TIMESTAMP_SECS {
        Timestamp { secs: ts, micros: 0 }
    } else {
        Timestamp { secs: MAX_TIMESTAMP_SECS, micros: 0 }
    }
}

/// Converts an epoch offset in whole seconds to a calendar timestamp. An
/// offset past the representable range is clamped to the ceiling and exactly
/// one warning naming `version` is appended; the conversion never fails.
pub fn parse_timestamp_secs(ts: u64, version: i64, warnings: &mut Vec<Warning>) -> (r: Timestamp)
    ensures
        r == spec_parse_timestamp_secs(ts),
        r.well_formed(),
        final(warnings)@ == old(warnings)@ + spec_secs_warnings(ts, version),
{
    if ts <= MAX_TIMESTAMP_SECS {
        let r = Timestamp { secs: ts, micros: 0 };
        assert(warnings@ =~= old(warnings)@ + spec_secs_warnings(ts, version));
        r
    } else {
        warnings.push(Warning::TimestampOutOfRange { version });
        assert(warnings@ =~= old(warnings)@ + spec_secs_warnings(ts, version));
        Timestamp { secs: MAX_TIMESTAMP_SECS, micros: 0 }
    }
}

/// The warnings one clamping conversion of an epoch-microsecond offset
/// appends: none in range, exactly one past the ceiling.
pub open spec fn spec_micros_warnings(ts: u64, version: i64) -> Seq<Warning> {
    if ts / MICROS_PER_SECOND <= MAX_TIMESTAMP_SECS {
        Seq::empty()
    } else {
        seq![Warning::TimestampOutOfRange { version }]
    }
}

/// What `parse_timestamp` returns.
pub open spec fn spec_parse_timestamp(ts: u64) -> Timestamp {
    if ts / MICROS_PER_SECOND <= MAX_TIMESTAMP_SECS {
        Timestamp { secs: ts / MICROS_PER_SECOND, micros: (ts % MICROS_PER_SECOND) as u32 }
    } else {
        Timestamp::spec_max()
    }
}

/// Converts an epoch offset in microseconds to a calendar timestamp. An
/// offset past the representable range is clamped to the ceiling and exactly
/// one warning naming `version` is appended; the conversion never fails.
pub fn parse_timestamp(ts: u64, version: i64, warnings: &mut Vec<Warning>) -> (r: Timestamp)
    ensures
        r == spec_parse_timestamp(ts),
        r.well_formed(),
        final(warnings)@ == old(warnings)@ + spec_micros_warnings(ts, version),
{
    let secs: u64 = ts / 1_000_000;
    if secs <= MAX_TIMESTAMP_SECS {
        let sub: u64 = ts % 1_000_000;
        let r = Timestamp { secs, micros: sub as u32 };
        assert(warnings@ =~= old(warnings)@ + spec_micros_warnings(ts, version));
        r
    } else {
        warnings.push(Warning::TimestampOutOfRange { version });
        assert(warnings@ =~= old(warnings)@ + spec_micros_warnings(ts, version));
        Timestamp::max()
    }
}

/// Relies on `std::time::SystemTime::elapsed`, called on the Unix epoch: the
/// time elapsed since the epoch, or `None` when the host clock reads before
/// the epoch. std documents that `elapsed` returns `Err` when the receiver is
/// later than the current time — a failure it reports as a value, with no
/// documented panic — so a pre-epoch clock comes back as `None`, never as an
/// abort.
#[verifier::external_body]
fn clock_since_epoch() -> (r: Option<core::time::Duration>)
{
    match std::time::UNIX_EPOCH.elapsed() {
        Ok(elapsed) => Some(elapsed),
        Err(_) => None,
    }
}

/// Relies on `core::time::Duration::as_secs`: the whole seconds of the
/// duration.
pub assume_specification[ core::time::Duration::as_secs ](d: &core::time::Duration) -> (r: u64)
;

/// Relies on `core::time::Duration::subsec_micros`: the fractional part of
/// the duration in whole microseconds, which std documents to be under one
/// million.
pub assume_specification[ core::time::Duration::subsec_micros ](
    d: &core::time::Duration,
) -> (r: u32)
    ensures
        r < 1_000_000,
;

/// Reads the wall clock and forces the reading into the representable range;
/// whatever the clock returned — even one set before the Unix epoch — the
/// result is a well-formed timestamp and the call never fails.
pub fn current_timestamp() -> (r: Timestamp)
    ensures
        r.well_formed(),
{
    match clock_since_epoch() {
        Some(elapsed) => Timestamp::from_parts(Some((elapsed.as_secs(), elapsed.subsec_micros()))),
        None => Timestamp::from_parts(None),
    }
}

} // verus!

//! Temporal conversions between the engine's columnar encodings and the
//! host's representations: dates as days since 2000-01-01, times as
//! microseconds since midnight, timestamps as microseconds since 2000-01-01,
//! intervals as a canonical (months, days, microseconds) triple. Each
//! physical unit has its own explicit, exact arithmetic path.

use vstd::prelude::*;

verus! {

/// Days between the engine's epoch (1970-01-01) and the host's epoch
/// (2000-01-01).
pub const EPOCH_SHIFT_DAYS: i64 = 10_957;

/// Microseconds between the engine's epoch and the host's epoch.
pub const EPOCH_SHIFT_MICROS: i64 = 946_684_800_000_000;

/// Microseconds in one day.
pub const MICROS_PER_DAY: i64 = 86_400_000_000;

/// Whether an unbounded integer fits a 64-bit signed value.
pub open spec fn in_i64(x: int) -> bool {
    i64::MIN <= x <= i64::MAX
}

/// Whether an unbounded integer fits a 32-bit signed value.
pub open spec fn in_i32(x: int) -> bool {
    i32::MIN <= x <= i32::MAX
}

/// Truncating division (toward zero), as the hardware divides.
pub open spec fn trunc_div(a: int, b: int) -> int {
    if a >= 0 {
        a / b
    } else {
        -((-a) / b)
    }
}

/// Flooring division (toward negative infinity); for a positive divisor
/// this is the mathematical Euclidean quotient.
pub open spec fn floor_div(a: int, b: int) -> int {
    a / b
}

/// Divides flooring toward negative infinity.
pub fn floor_div_i64(a: i64, b: i64) -> (r: i64)
    requires
        b > 0,
    ensures
        r == floor_div(a as int, b as int),
{
    if a >= 0 {
        let q = (a as u64) / (b as u64);
        proof {
            assert(q <= a);
        }
        q as i64
    } else {
        let pos = (-(a + 1)) as u64;
        let q1 = pos / (b as u64);
        proof {
            assert(q1 <= pos);
            vstd::arithmetic::div_mod::lemma_fundamental_div_mod(pos as int, b as int);
            vstd::arithmetic::div_mod::lemma_mod_bound(pos as int, b as int);
            let qq = pos as int / b as int;
            let rr = pos as int % b as int;
            assert(a as int == b * (-qq - 1) + (b - rr - 1)) by {
                assert(pos as int == b * qq + rr);
                assert(a as int == -(pos as int) - 1);
                vstd::arithmetic::mul::lemma_mul_is_distributive_sub_other_way(
                    b as int,
                    -qq,
                    1,
                );
                assert(b * (-qq) == -(b * qq)) by {
                    vstd::arithmetic::mul::lemma_mul_unary_negation(b as int, qq);
                }
            }
            vstd::arithmetic::div_mod::lemma_fundamental_div_mod_converse(
                a as int,
                b as int,
                -qq - 1,
                b - rr - 1,
            );
        }
        -(q1 as i64) - 1
    }
}

/// Why a temporal value cannot be delivered.
#[derive(Clone, Copy, PartialEq, Eq, Structural, Debug)]
pub enum TemporalError {
    /// The converted value does not fit the host representation.
    OutOfRange,
    /// A time-of-day value lies outside one day.
    InvalidTime,
    /// A timestamp type modifier other than the default or microseconds.
    UnsupportedTypeMod(i32),
}

/// The host date of an engine 32-bit date: days since 1970 shifted to days
/// since 2000.
pub fn date32_to_date(days: i32) -> (r: Result<i32, TemporalError>)
    ensures
        match r {
            Ok(d) => in_i32(days - EPOCH_SHIFT_DAYS) && d == days - EPOCH_SHIFT_DAYS,
            Err(e) => !in_i32(days - EPOCH_SHIFT_DAYS) && e == TemporalError::OutOfRange,
        },
{
    let wide: i64 = (days as i64) - EPOCH_SHIFT_DAYS;
    if wide < (i32::MIN as i64) || wide > (i32::MAX as i64) {
        Err(TemporalError::OutOfRange)
    } else {
        Ok(wide as i32)
    }
}

/// The host date of an engine 64-bit date: milliseconds since 1970, floored
/// to whole days, shifted to days since 2000.
pub fn date64_to_date(millis: i64) -> (r: Result<i32, TemporalError>)
    ensures
        match r {
            Ok(d) => in_i32(floor_div(millis as int, 86_400_000) - EPOCH_SHIFT_DAYS) && d
                == floor_div(millis as int, 86_400_000) - EPOCH_SHIFT_DAYS,
            Err(e) => !in_i32(floor_div(millis as int, 86_400_000) - EPOCH_SHIFT_DAYS) && e
                == TemporalError::OutOfRange,
        },
{
    let days = floor_div_i64(millis, 86_400_000);
    let wide = days - EPOCH_SHIFT_DAYS;
    if wide < (i32::MIN as i64) || wide > (i32::MAX as i64) {
        Err(TemporalError::OutOfRange)
    } else {
        Ok(wide as i32)
    }
}

/// The host timestamp of an engine 32-bit date: midnight of that day, in
/// microseconds since 2000.
pub fn date32_to_timestamp_micros(days: i32) -> (r: Result<i64, TemporalError>)
    ensures
        match r {
            Ok(t) => in_i64((days - EPOCH_SHIFT_DAYS) * MICROS_PER_DAY) && t == (days
                - EPOCH_SHIFT_DAYS) * MICROS_PER_DAY,
            Err(e) => !in_i64((days - EPOCH_SHIFT_DAYS) * MICROS_PER_DAY) && e
                == TemporalError::OutOfRange,
        },
{
    let shifted: i64 = (days as i64) - EPOCH_SHIFT_DAYS;
    match shifted.checked_mul(MICROS_PER_DAY) {
        Some(t) => Ok(t),
        None => Err(TemporalError::OutOfRange),
    }
}

/// The host timestamp of an engine 64-bit date: milliseconds since 1970 as
/// microseconds since 2000. Delivered exactly when the shifted microsecond
/// count fits 64 bits, the same guard as the 32-bit date path.
pub fn date64_to_timestamp_micros(millis: i64) -> (r: Result<i64, TemporalError>)
    ensures
        match r {
            Ok(t) => in_i64(millis * 1000 - EPOCH_SHIFT_MICROS) && t == millis * 1000
                - EPOCH_SHIFT_MICROS,
            Err(e) => !in_i64(millis * 1000 - EPOCH_SHIFT_MICROS) && e
                == TemporalError::OutOfRange,
        },
{
    let shifted: i128 = (millis as i128) * 1000 - (EPOCH_SHIFT_MICROS as i128);
    if shifted < (i64::MIN as i128) || shifted > (i64::MAX as i128) {
        Err(TemporalError::OutOfRange)
    } else {
        Ok(shifted as i64)
    }
}

/// The two date paths agree: a 32-bit day count and the equivalent 64-bit
/// millisecond count (the days scaled exactly to milliseconds) denote the
/// same host timestamp, and the one is convertible exactly when the other
/// is.
pub proof fn lemma_date_paths_agree(days: i32)
    ensures
        (days - EPOCH_SHIFT_DAYS) * MICROS_PER_DAY == (days as int * 86_400_000) * 1000
            - EPOCH_SHIFT_MICROS,
{
    assert((days - EPOCH_SHIFT_DAYS) * MICROS_PER_DAY == days * (86_400_000_000 as int)
        - EPOCH_SHIFT_DAYS * MICROS_PER_DAY) by {
        vstd::arithmetic::mul::lemma_mul_is_distributive_sub_other_way(
            MICROS_PER_DAY as int,
            days as int,
            EPOCH_SHIFT_DAYS as int,
        );
        vstd::arithmetic::mul::lemma_mul_is_commutative(MICROS_PER_DAY as int, days as int);
        vstd::arithmetic::mul::lemma_mul_is_commutative(
            MICROS_PER_DAY as int,
            EPOCH_SHIFT_DAYS as int,
        );
    }
    assert((days as int * 86_400_000) * 1000 == days * (86_400_000_000 as int)) by {
        vstd::arithmetic::mul::lemma_mul_is_associative(days as int, 86_400_000, 1000);
    }
}

/// The engine's physical timestamp resolutions.
#[derive(Clone, Copy, PartialEq, Eq, Structural, Debug)]
pub enum TimestampUnit {
    Second,
    Millisecond,
    Microsecond,
    Nanosecond,
}

/// The engine value scaled to microseconds since the engine epoch:
/// sub-microsecond digits of a nanosecond value are floored away.
pub open spec fn spec_unit_micros(unit: TimestampUnit, v: int) -> int {
    match unit {
        TimestampUnit::Second => v * 1_000_000,
        TimestampUnit::Millisecond => v * 1000,
        TimestampUnit::Microsecond => v,
        TimestampUnit::Nanosecond => floor_div(v, 1000),
    }
}

/// The host timestamp of an engine timestamp value: microseconds since the
/// host epoch.
pub open spec fn spec_host_micros(unit: TimestampUnit, v: int) -> int {
    spec_unit_micros(unit, v) - EPOCH_SHIFT_MICROS
}

/// Whether the conversion stays within 64 bits at each step.
pub open spec fn spec_timestamp_convertible(unit: TimestampUnit, v: int) -> bool {
    in_i64(spec_unit_micros(unit, v)) && in_i64(spec_host_micros(unit, v))
}

/// The host timestamp (microseconds since 2000) of an engine timestamp in
/// the given physical unit. Each unit has its own explicit path; the value
/// is delivered exactly when the scaled value fits 64 bits.
pub fn timestamp_to_host_micros(unit: TimestampUnit, v: i64) -> (r: Result<i64, TemporalError>)
    ensures
        match r {
            Ok(t) => spec_timestamp_convertible(unit, v as int) && t == spec_host_micros(
                unit,
                v as int,
            ),
            Err(e) => !spec_timestamp_convertible(unit, v as int) && e
                == TemporalError::OutOfRange,
        },
{
    let scaled: Option<i64> = match unit {
        TimestampUnit::Second => v.checked_mul(1_000_000),
        TimestampUnit::Millisecond => v.checked_mul(1000),
        TimestampUnit::Microsecond => Some(v),
        TimestampUnit::Nanosecond => Some(floor_div_i64(v, 1000)),
    };
    match scaled {
        None => Err(TemporalError::OutOfRange),
        Some(us) => match us.checked_sub(EPOCH_SHIFT_MICROS) {
            None => Err(TemporalError::OutOfRange),
            Some(t) => Ok(t),
        },
    }
}

/// The engine timestamp value, in the given unit, of a host timestamp:
/// the reverse direction of `timestamp_to_host_micros`. Seconds and
/// milliseconds floor away the finer digits; nanoseconds must fit 64 bits.
pub fn host_micros_to_timestamp(unit: TimestampUnit, t: i64) -> (r: Result<i64, TemporalError>)
    ensures
        match r {
            Ok(v) => match unit {
                TimestampUnit::Second => in_i64(t + EPOCH_SHIFT_MICROS) && v == floor_div(
                    t + EPOCH_SHIFT_MICROS,
                    1_000_000,
                ),
                TimestampUnit::Millisecond => in_i64(t + EPOCH_SHIFT_MICROS) && v == floor_div(
                    t + EPOCH_SHIFT_MICROS,
                    1000,
                ),
                TimestampUnit::Microsecond => in_i64(t + EPOCH_SHIFT_MICROS) && v == t
                    + EPOCH_SHIFT_MICROS,
                TimestampUnit::Nanosecond => in_i64((t + EPOCH_SHIFT_MICROS) * 1000) && v == (t
                    + EPOCH_SHIFT_MICROS) * 1000,
            },
            Err(e) => e == TemporalError::OutOfRange && match unit {
                TimestampUnit::Nanosecond => !(in_i64(t + EPOCH_SHIFT_MICROS) && in_i64(
                    (t + EPOCH_SHIFT_MICROS) * 1000,
                )),
                _ => !in_i64(t + EPOCH_SHIFT_MICROS),
            },
        },
{
    match t.checked_add(EPOCH_SHIFT_MICROS) {
        None => Err(TemporalError::OutOfRange),
        Some(unix) => match unit {
            TimestampUnit::Second => Ok(floor_div_i64(unix, 1_000_000)),
            TimestampUnit::Millisecond => Ok(floor_div_i64(unix, 1000)),
            TimestampUnit::Microsecond => Ok(unix),
            TimestampUnit::Nanosecond => match unix.checked_mul(1000) {
                None => Err(TemporalError::OutOfRange),
                Some(ns) => Ok(ns),
            },
        },
    }
}

/// Converting an engine timestamp to the host and back to the same unit
/// returns the original value for second, millisecond and microsecond
/// resolutions, and the value floored to whole microseconds for nanosecond
/// resolution: the documented truncation, never a rounding.
pub proof fn lemma_timestamp_round_trip(unit: TimestampUnit, v: i64)
    requires
        spec_timestamp_convertible(unit, v as int),
    ensures
        match unit {
            TimestampUnit::Second => floor_div(
                spec_host_micros(unit, v as int) + EPOCH_SHIFT_MICROS,
                1_000_000,
            ) == v,
            TimestampUnit::Millisecond => floor_div(
                spec_host_micros(unit, v as int) + EPOCH_SHIFT_MICROS,
                1000,
            ) == v,
            TimestampUnit::Microsecond => spec_host_micros(unit, v as int) + EPOCH_SHIFT_MICROS
                == v,
            TimestampUnit::Nanosecond => (spec_host_micros(unit, v as int) + EPOCH_SHIFT_MICROS)
                * 1000 == 1000 * floor_div(v as int, 1000) && v as int - 1000 * floor_div(
                v as int,
                1000,
            ) == (v as int) % 1000,
        },
{
    match unit {
        TimestampUnit::Second => {
            assert(spec_host_micros(unit, v as int) + EPOCH_SHIFT_MICROS == v * 1_000_000);
            assert((v * 1_000_000) / 1_000_000 == v as int) by {
                vstd::arithmetic::div_mod::lemma_div_multiples_vanish(v as int, 1_000_000);
            }
        },
        TimestampUnit::Millisecond => {
            assert(spec_host_micros(unit, v as int) + EPOCH_SHIFT_MICROS == v * 1000);
            assert((v * 1000) / 1000 == v as int) by {
                vstd::arithmetic::div_mod::lemma_div_multiples_vanish(v as int, 1000);
            }
        },
        TimestampUnit::Microsecond => {},
        TimestampUnit::Nanosecond => {
            vstd::arithmetic::div_mod::lemma_fundamental_div_mod(v as int, 1000);
        },
    }
}

/// The canonical interval of an engine year-month interval.
pub fn interval_from_year_month(months: i32) -> (r: crate::cell::IntervalValue)
    ensures
        r == (crate::cell::IntervalValue { months, days: 0, micros: 0 }),
{
    crate::cell::IntervalValue { months, days: 0, micros: 0 }
}

/// The canonical interval of an engine day-time interval: the millisecond
/// component becomes microseconds exactly.
pub fn interval_from_day_time(days: i32, millis: i32) -> (r: crate::cell::IntervalValue)
    ensures
        r == (crate::cell::IntervalValue { months: 0, days, micros: (millis * 1000) as i64 }),
{
    crate::cell::IntervalValue { months: 0, days, micros: (millis as i64) * 1000 }
}

/// The canonical interval of an engine month-day-nanosecond interval: the
/// nanosecond component is truncated (toward zero, never rounded) to whole
/// microseconds.
pub fn interval_from_month_day_nano(months: i32, days: i32, nanos: i64) -> (r:
    crate::cell::IntervalValue)
    ensures
        r == (crate::cell::IntervalValue {
            months,
            days,
            micros: trunc_div(nanos as int, 1000) as i64,
        }),
{
    let micros = nanos / 1000;
    crate::cell::IntervalValue { months, days, micros }
}

/// The engine month-day-nanosecond encoding of a canonical interval, when
/// the nanosecond count fits 64 bits.
pub fn interval_to_month_day_nano(iv: crate::cell::IntervalValue) -> (r: Option<(i32, i32, i64)>)
    ensures
        match r {
            Some((m, d, ns)) => in_i64(iv.micros * 1000) && m == iv.months && d == iv.days && ns
                == iv.micros * 1000,
            None => !in_i64(iv.micros * 1000),
        },
{
    match iv.micros.checked_mul(1000) {
        None => None,
        Some(ns) => Some((iv.months, iv.days, ns)),
    }
}

/// Converting an engine month-day-nanosecond interval to the canonical
/// triple and back preserves months and days exactly and truncates the
/// nanoseconds to whole microseconds, never rounding: the returned
/// nanosecond count differs from the original by exactly the sub-microsecond
/// remainder.
pub proof fn lemma_interval_round_trip(months: i32, days: i32, nanos: i64)
    ensures
        ({
            let micros = trunc_div(nanos as int, 1000);
            &&& in_i64(micros * 1000)
            &&& (nanos >= 0 ==> nanos as int - micros * 1000 == (nanos as int) % 1000)
            &&& (nanos < 0 ==> micros * 1000 - nanos as int == ((-(nanos as int)) % 1000))
            &&& (nanos as int % 1000 == 0 ==> micros * 1000 == nanos as int)
        }),
{
    let n = nanos as int;
    if n >= 0 {
        vstd::arithmetic::div_mod::lemma_fundamental_div_mod(n, 1000);
        vstd::arithmetic::div_mod::lemma_mod_bound(n, 1000);
    } else {
        vstd::arithmetic::div_mod::lemma_fundamental_div_mod(-n, 1000);
        vstd::arithmetic::div_mod::lemma_mod_bound(-n, 1000);
        if n % 1000 == 0 {
            vstd::arithmetic::div_mod::lemma_fundamental_div_mod(n, 1000);
            assert(-n == 1000 * (-(n / 1000))) by {
                vstd::arithmetic::mul::lemma_mul_is_distributive_sub_other_way(1000, 0, n / 1000);
            }
            vstd::arithmetic::div_mod::lemma_mod_multiples_basic(-(n / 1000), 1000);
        }
    }
}

/// A canonical interval converted to the engine encoding and back is
/// unchanged.
pub proof fn lemma_interval_round_trip_exact(iv: crate::cell::IntervalValue)
    requires
        in_i64(iv.micros * 1000),
    ensures
        trunc_div(iv.micros * 1000, 1000) == iv.micros as int,
{
    if iv.micros >= 0 {
        vstd::arithmetic::div_mod::lemma_div_multiples_vanish(iv.micros as int, 1000);
    } else {
        vstd::arithmetic::div_mod::lemma_div_multiples_vanish(-(iv.micros as int), 1000);
        assert(-(iv.micros * 1000) == (-(iv.micros as int)) * 1000) by {
            vstd::arithmetic::mul::lemma_mul_is_distributive_sub_other_way(
                1000,
                0,
                iv.micros as int,
            );
        }
    }
}

/// A time of day in an engine column, scaled to microseconds since
/// midnight; nanoseconds are truncated to whole microseconds.
#[derive(Clone, Copy, PartialEq, Eq, Structural, Debug)]
pub enum TimeUnit {
    Second,
    Millisecond,
    Microsecond,
    Nanosecond,
}

/// The microseconds-since-midnight reading of an engine time value.
pub open spec fn spec_time_micros(unit: TimeUnit, v: int) -> int {
    match unit {
        TimeUnit::Second => v * 1_000_000,
        TimeUnit::Millisecond => v * 1000,
        TimeUnit::Microsecond => v,
        TimeUnit::Nanosecond => v / 1000,
    }
}

/// Whether an engine time value lies within one day.
pub open spec fn spec_time_valid(unit: TimeUnit, v: int) -> bool {
    0 <= spec_time_micros(unit, v) < 86_400_000_000
}

/// The host time (microseconds since midnight) of an engine time value in
/// the given physical unit; a value outside one day is refused.
pub fn time_to_host_micros(unit: TimeUnit, v: i64) -> (r: Result<i64, TemporalError>)
    ensures
        match r {
            Ok(t) => spec_time_valid(unit, v as int) && t == spec_time_micros(unit, v as int),
            Err(e) => !spec_time_valid(unit, v as int) && e == TemporalError::InvalidTime,
        },
{
    if v < 0 {
        proof {
            match unit {
                TimeUnit::Second => {
                    vstd::arithmetic::mul::lemma_mul_strictly_positive(-(v as int), 1_000_000);
                },
                TimeUnit::Millisecond => {
                    vstd::arithmetic::mul::lemma_mul_strictly_positive(-(v as int), 1000);
                },
                TimeUnit::Microsecond => {},
                TimeUnit::Nanosecond => {
                    vstd::arithmetic::div_mod::lemma_div_is_ordered(v as int, 0, 1000);
                },
            }
        }
        return Err(TemporalError::InvalidTime);
    }
    let micros: i64 = match unit {
        TimeUnit::Second => {
            if v >= 86_400 {
                proof {
                    vstd::arithmetic::mul::lemma_mul_inequality(86_400, v as int, 1_000_000);
                }
                return Err(TemporalError::InvalidTime);
            }
            v * 1_000_000
        },
        TimeUnit::Millisecond => {
            if v >= 86_400_000 {
                proof {
                    vstd::arithmetic::mul::lemma_mul_inequality(86_400_000, v as int, 1000);
                }
                return Err(TemporalError::InvalidTime);
            }
            v * 1000
        },
        TimeUnit::Microsecond => {
            if v >= 86_400_000_000 {
                return Err(TemporalError::InvalidTime);
            }
            v
        },
        TimeUnit::Nanosecond => {
            if v >= 86_400_000_000_000 {
                proof {
                    vstd::arithmetic::div_mod::lemma_div_is_ordered(
                        86_400_000_000_000,
                        v as int,
                        1000,
                    );
                }
                return Err(TemporalError::InvalidTime);
            }
            v / 1000
        },
    };
    Ok(micros)
}

/// The host's timestamp type modifiers the engine mapping supports.
#[derive(Clone, Copy, PartialEq, Eq, Structural, Debug)]
pub enum PgTimestampPrecision {
    /// No modifier written: full microsecond precision.
    Default,
    Second,
    Millisecond,
    Microsecond,
}

impl PgTimestampPrecision {
    /// The numeric type modifier of this precision.
    pub fn value(&self) -> (r: i32)
        ensures
            r == match self {
                PgTimestampPrecision::Default => -1,
                PgTimestampPrecision::Second => 0,
                PgTimestampPrecision::Millisecond => 3,
                PgTimestampPrecision::Microsecond => 6,
            },
    {
        match self {
            PgTimestampPrecision::Default => -1,
            PgTimestampPrecision::Second => 0,
            PgTimestampPrecision::Millisecond => 3,
            PgTimestampPrecision::Microsecond => 6,
        }
    }
}

/// Reads a timestamp type modifier: only the default (-1) and microseconds
/// (6) are supported; any other precision is refused, naming the modifier.
pub fn precision_from_typemod(typemod: i32) -> (r: Result<PgTimestampPrecision, TemporalError>)
    ensures
        match r {
            Ok(p) => (typemod == -1 && p == PgTimestampPrecision::Default) || (typemod == 6 && p
                == PgTimestampPrecision::Microsecond),
            Err(e) => typemod != -1 && typemod != 6 && e == TemporalError::UnsupportedTypeMod(
                typemod,
            ),
        },
{
    if typemod == -1 {
        Ok(PgTimestampPrecision::Default)
    } else if typemod == 6 {
        Ok(PgTimestampPrecision::Microsecond)
    } else {
        Err(TemporalError::UnsupportedTypeMod(typemod))
    }
}

/// The engine resolution of a supported host precision: the default is
/// microseconds.
pub fn precision_to_unit(p: PgTimestampPrecision) -> (r: TimestampUnit)
    ensures
        r == match p {
            PgTimestampPrecision::Default => TimestampUnit::Microsecond,
            PgTimestampPrecision::Second => TimestampUnit::Second,
            PgTimestampPrecision::Millisecond => TimestampUnit::Millisecond,
            PgTimestampPrecision::Microsecond => TimestampUnit::Microsecond,
        },
{
    match p {
        PgTimestampPrecision::Default => TimestampUnit::Microsecond,
        PgTimestampPrecision::Second => TimestampUnit::Second,
        PgTimestampPrecision::Millisecond => TimestampUnit::Millisecond,
        PgTimestampPrecision::Microsecond => TimestampUnit::Microsecond,
    }
}

/// The host type modifier of an engine resolution; nanoseconds, which the
/// host cannot store, map to the microsecond modifier.
pub fn unit_to_typemod(unit: TimestampUnit) -> (r: i32)
    ensures
        r == match unit {
            TimestampUnit::Second => 0i32,
            TimestampUnit::Millisecond => 3i32,
            TimestampUnit::Microsecond => 6i32,
            TimestampUnit::Nanosecond => 6i32,
        },
{
    match unit {
        TimestampUnit::Second => 0,
        TimestampUnit::Millisecond => 3,
        TimestampUnit::Microsecond => 6,
        TimestampUnit::Nanosecond => 6,
    }
}

} // verus!

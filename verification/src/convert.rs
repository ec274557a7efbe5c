//! The type conversion layer: one explicit rule per supported (physical
//! type, logical type) pair, from a validated column cell to a host cell.
//! A pair without a declared rule is a hard mismatch error naming the
//! column; a null source cell always becomes a null target cell; narrowing
//! follows the declared two's-complement cast chain; decimals round-trip
//! through their canonical string.

use crate::cell::{Cell, CellV, DecimalValue, DocValue, DocValueV, Document};
use crate::column::{col_kind, col_len, col_null_at, ColumnData, PgType, PhysKind, StructColumn};
use crate::decimal::{
    format_decimal, lemma_decimal_round_trip, parse_decimal, pow10, pow10_u128, wf_decimal,
};
use crate::temporal::{
    date32_to_date, date32_to_timestamp_micros, date64_to_date, date64_to_timestamp_micros,
    floor_div, in_i32, in_i64, interval_from_day_time, interval_from_month_day_nano,
    interval_from_year_month, spec_host_micros, spec_time_micros, spec_time_valid,
    spec_timestamp_convertible, time_to_host_micros, timestamp_to_host_micros, trunc_div, TimeUnit,
    TimestampUnit,
};
use vstd::prelude::*;

verus! {

/// The declared conversion matrix: exactly these (source physical type,
/// target logical type) pairs have a rule. Anything else is a mismatch,
/// never an implicit coercion. Pairs that would take floating-point
/// arithmetic (a float source narrowed or widened, a float target fed from
/// integers) are not declared: float values pass through only to the
/// same-width float target, as opaque bit patterns.
pub open spec fn spec_supported_pair(k: PhysKind, t: PgType) -> bool {
    match t {
        PgType::Bool => k is Bool,
        PgType::Bytea => k is Binary || k is LargeBinary || k is Utf8,
        PgType::Int2 | PgType::Int4 | PgType::Int8 => {
            ||| k is Int8
            ||| k is Int16
            ||| k is Int32
            ||| k is Int64
            ||| k is UInt8
            ||| k is UInt16
            ||| k is UInt32
            ||| k is UInt64
            ||| k is Decimal128
        },
        PgType::Float4 => k is Float32,
        PgType::Float8 => k is Float64,
        PgType::Numeric => {
            ||| k is Int8
            ||| k is Int16
            ||| k is Int32
            ||| k is Int64
            ||| k is UInt8
            ||| k is UInt16
            ||| k is UInt32
            ||| k is UInt64
            ||| k is Decimal128
        },
        PgType::Text | PgType::Varchar | PgType::Bpchar | PgType::Name => {
            ||| k is Utf8
            ||| k is LargeUtf8
            ||| k is Binary
            ||| k is LargeBinary
        },
        PgType::Date => k is Date32 || k is Date64,
        PgType::Time => {
            ||| k is Time32Second
            ||| k is Time32Millisecond
            ||| k is Time64Microsecond
            ||| k is Time64Nanosecond
        },
        PgType::Timestamp | PgType::TimestampTz => {
            ||| k is TimestampSecond
            ||| k is TimestampMillisecond
            ||| k is TimestampMicrosecond
            ||| k is TimestampNanosecond
            ||| k is Date32
            ||| k is Date64
        },
        PgType::Interval => k is IntervalYearMonth || k is IntervalDayTime
            || k is IntervalMonthDayNano,
        PgType::Jsonb => k is Struct,
        PgType::Uuid => k is Utf8,
        PgType::Void => k is Null,
        PgType::BoolArray => k is ListBool,
        PgType::TextArray | PgType::VarcharArray | PgType::BpcharArray => k is ListUtf8,
        PgType::Int2Array => k is ListInt16,
        PgType::Int4Array => k is ListInt32,
        PgType::Int8Array => k is ListInt64,
        PgType::Float4Array => k is ListFloat32,
        PgType::Float8Array => k is ListFloat64,
        PgType::Other => false,
    }
}

/// Tests whether a conversion rule is declared for the pair.
pub fn supported_pair(k: PhysKind, t: PgType) -> (r: bool)
    ensures
        r == spec_supported_pair(k, t),
{
    match t {
        PgType::Bool => matches!(k, PhysKind::Bool),
        PgType::Bytea => matches!(k, PhysKind::Binary | PhysKind::LargeBinary | PhysKind::Utf8),
        PgType::Int2 | PgType::Int4 | PgType::Int8 | PgType::Numeric => matches!(
            k,
            PhysKind::Int8 | PhysKind::Int16 | PhysKind::Int32 | PhysKind::Int64 | PhysKind::UInt8
                | PhysKind::UInt16 | PhysKind::UInt32 | PhysKind::UInt64 | PhysKind::Decimal128,
        ),
        PgType::Float4 => matches!(k, PhysKind::Float32),
        PgType::Float8 => matches!(k, PhysKind::Float64),
        PgType::Text | PgType::Varchar | PgType::Bpchar | PgType::Name => matches!(
            k,
            PhysKind::Utf8 | PhysKind::LargeUtf8 | PhysKind::Binary | PhysKind::LargeBinary,
        ),
        PgType::Date => matches!(k, PhysKind::Date32 | PhysKind::Date64),
        PgType::Time => matches!(
            k,
            PhysKind::Time32Second | PhysKind::Time32Millisecond | PhysKind::Time64Microsecond
                | PhysKind::Time64Nanosecond,
        ),
        PgType::Timestamp | PgType::TimestampTz => matches!(
            k,
            PhysKind::TimestampSecond | PhysKind::TimestampMillisecond
                | PhysKind::TimestampMicrosecond | PhysKind::TimestampNanosecond | PhysKind::Date32
                | PhysKind::Date64,
        ),
        PgType::Interval => matches!(
            k,
            PhysKind::IntervalYearMonth | PhysKind::IntervalDayTime | PhysKind::IntervalMonthDayNano,
        ),
        PgType::Jsonb => matches!(k, PhysKind::Struct),
        PgType::Uuid => matches!(k, PhysKind::Utf8),
        PgType::Void => matches!(k, PhysKind::Null),
        PgType::BoolArray => matches!(k, PhysKind::ListBool),
        PgType::TextArray | PgType::VarcharArray | PgType::BpcharArray => matches!(
            k,
            PhysKind::ListUtf8,
        ),
        PgType::Int2Array => matches!(k, PhysKind::ListInt16),
        PgType::Int4Array => matches!(k, PhysKind::ListInt32),
        PgType::Int8Array => matches!(k, PhysKind::ListInt64),
        PgType::Float4Array => matches!(k, PhysKind::ListFloat32),
        PgType::Float8Array => matches!(k, PhysKind::ListFloat64),
        PgType::Other => false,
    }
}

/// The low 16 bits of an integer, read as two's complement.
pub open spec fn spec_wrap16(v: int) -> int {
    let m = v % 0x10000;
    if m >= 0x8000 {
        m - 0x10000
    } else {
        m
    }
}

/// The low 32 bits of an integer, read as two's complement.
pub open spec fn spec_wrap32(v: int) -> int {
    let m = v % 0x1_0000_0000;
    if m >= 0x8000_0000 {
        m - 0x1_0000_0000
    } else {
        m
    }
}

/// The low 64 bits of an integer, read as two's complement.
pub open spec fn spec_wrap64(v: int) -> int {
    let m = v % 0x1_0000_0000_0000_0000;
    if m >= 0x8000_0000_0000_0000 {
        m - 0x1_0000_0000_0000_0000
    } else {
        m
    }
}

/// Narrows through the declared cast chain: the low 16 bits of the signed
/// value.
pub fn wrap16_i64(v: i64) -> (r: i16)
    ensures
        r as int == spec_wrap16(v as int),
{
    let m0 = v % 0x10000;
    let m = if m0 < 0 {
        m0 + 0x10000
    } else {
        m0
    };
    if m >= 0x8000 {
        (m - 0x10000) as i16
    } else {
        m as i16
    }
}

/// Narrows through the declared cast chain: the low 16 bits of the
/// unsigned value.
pub fn wrap16_u64(v: u64) -> (r: i16)
    ensures
        r as int == spec_wrap16(v as int),
{
    let m = v % 0x10000;
    if m >= 0x8000 {
        ((m as i64) - 0x10000) as i16
    } else {
        m as i16
    }
}

/// Narrows through the declared cast chain: the low 32 bits of the signed
/// value.
pub fn wrap32_i64(v: i64) -> (r: i32)
    ensures
        r as int == spec_wrap32(v as int),
{
    let m0 = v % 0x1_0000_0000;
    let m = if m0 < 0 {
        m0 + 0x1_0000_0000
    } else {
        m0
    };
    if m >= 0x8000_0000 {
        (m - 0x1_0000_0000) as i32
    } else {
        m as i32
    }
}

/// Narrows through the declared cast chain: the low 32 bits of the
/// unsigned value.
pub fn wrap32_u64(v: u64) -> (r: i32)
    ensures
        r as int == spec_wrap32(v as int),
{
    let m = v % 0x1_0000_0000;
    if m >= 0x8000_0000 {
        ((m as i64) - 0x1_0000_0000) as i32
    } else {
        m as i32
    }
}

/// Reads an unsigned 64-bit value as two's complement.
pub fn wrap64_u64(v: u64) -> (r: i64)
    ensures
        r as int == spec_wrap64(v as int),
{
    if v >= 0x8000_0000_0000_0000 {
        -((u64::MAX - v) as i64) - 1
    } else {
        v as i64
    }
}

/// The integer value held at `row` of an integer-kind column (meaningful
/// only for non-null cells of those kinds).
pub open spec fn spec_int_at(col: ColumnData, row: int) -> int {
    match col {
        ColumnData::Int8(v) => v@[row].unwrap() as int,
        ColumnData::Int16(v) => v@[row].unwrap() as int,
        ColumnData::Int32(v) => v@[row].unwrap() as int,
        ColumnData::Int64(v) => v@[row].unwrap() as int,
        ColumnData::UInt8(v) => v@[row].unwrap() as int,
        ColumnData::UInt16(v) => v@[row].unwrap() as int,
        ColumnData::UInt32(v) => v@[row].unwrap() as int,
        ColumnData::UInt64(v) => v@[row].unwrap() as int,
        _ => 0,
    }
}

/// Whether a column's physical type is one of the integer kinds.
pub open spec fn spec_is_int_kind(k: PhysKind) -> bool {
    ||| k is Int8
    ||| k is Int16
    ||| k is Int32
    ||| k is Int64
    ||| k is UInt8
    ||| k is UInt16
    ||| k is UInt32
    ||| k is UInt64
}

/// An integer source value, kept in its signedness for the cast chain.
enum IntSource {
    Signed(i64),
    Unsigned(u64),
}

/// Reads the integer at `row` of an integer-kind column.
fn int_source(col: &ColumnData, row: usize) -> (r: IntSource)
    requires
        row < col_len(*col),
        spec_is_int_kind(col_kind(*col)),
        !col_null_at(*col, row as int),
    ensures
        match r {
            IntSource::Signed(v) => v as int == spec_int_at(*col, row as int),
            IntSource::Unsigned(v) => v as int == spec_int_at(*col, row as int),
        },
{
    match col {
        ColumnData::Int8(v) => IntSource::Signed(v[row].unwrap() as i64),
        ColumnData::Int16(v) => IntSource::Signed(v[row].unwrap() as i64),
        ColumnData::Int32(v) => IntSource::Signed(v[row].unwrap() as i64),
        ColumnData::Int64(v) => IntSource::Signed(v[row].unwrap()),
        ColumnData::UInt8(v) => IntSource::Unsigned(v[row].unwrap() as u64),
        ColumnData::UInt16(v) => IntSource::Unsigned(v[row].unwrap() as u64),
        ColumnData::UInt32(v) => IntSource::Unsigned(v[row].unwrap() as u64),
        ColumnData::UInt64(v) => IntSource::Unsigned(v[row].unwrap()),
        _ => {
            proof {
                assert(false);
            }
            IntSource::Signed(0)
        },
    }
}

/// The abstract outcome of converting one cell.
pub ghost enum ConvOutcome {
    /// The source cell is null: the target cell is null, never a default.
    Null,
    /// The converted cell.
    Value(CellV),
    /// No rule is declared for the (source, target) pair.
    Mismatch,
    /// The converted value does not fit the host representation.
    OutOfRange,
    /// A time of day outside one day.
    InvalidTime,
    /// Bytes delivered to a text target are not plain text.
    InvalidText,
    /// A UUID string the parser does not accept.
    InvalidUuid,
    /// A decimal that does not fit the target (a fraction where an integer
    /// is requested, or too many digits).
    NumericOverflow,
    /// A struct field of an unsupported physical type, by field name and
    /// physical type.
    UnsupportedField(Seq<char>, PhysKind),
}

/// The decimal held at `row` of a decimal column (meaningful only for
/// non-null cells).
pub open spec fn spec_decimal_at(col: ColumnData, row: int) -> DecimalValue {
    match col {
        ColumnData::Decimal128 { scale, values, .. } => DecimalValue {
            digits: values@[row].unwrap(),
            scale,
        },
        _ => DecimalValue { digits: 0, scale: 0 },
    }
}

/// The exact integer a decimal denotes within `[lo, hi]`: defined when the
/// scale is supported, the fraction is zero, and the quotient is in range.
pub open spec fn spec_decimal_to_int(d: DecimalValue, lo: int, hi: int) -> Option<int> {
    let p = pow10(d.scale as nat) as int;
    if d.scale <= 38 && d.digits as int % p == 0 && lo <= d.digits as int / p <= hi {
        Some(d.digits as int / p)
    } else {
        None
    }
}

/// What parsing a UUID string returns: the 16 bytes, or nothing for a
/// string the parser does not accept. The result depends on the characters
/// alone.
pub uninterp spec fn uuid_parse(s: Seq<char>) -> Option<Seq<u8>>;

/// Relies on uuid::Uuid::parse_str: parses hexadecimal digits with optional
/// hyphens (the crate's simple, hyphenated, braced and URN formats) into the
/// UUID's 16 bytes; deterministic in the input string.
#[verifier::external_body]
fn parse_uuid(s: &str) -> (r: Option<[u8; 16]>)
    ensures
        match r {
            Some(b) => uuid_parse(s@) == Some(b@),
            None => uuid_parse(s@) is None,
        },
{
    match uuid::Uuid::parse_str(s) {
        Ok(u) => Some(u.into_bytes()),
        Err(_) => None,
    }
}

/// What one struct field contributes to the document.
pub ghost enum DocOutcome {
    /// The field's physical type has no document rule.
    Unsupported,
    /// The field's value (a null field is a null member, never dropped).
    Value(DocValueV),
}

/// The field types with a document rule: booleans, signed and unsigned
/// integers, floats (as bit patterns), decimals and text.
pub open spec fn spec_doc_supported(k: PhysKind) -> bool {
    ||| k is Bool
    ||| k is Int8
    ||| k is Int16
    ||| k is Int32
    ||| k is Int64
    ||| k is UInt8
    ||| k is UInt16
    ||| k is UInt32
    ||| k is UInt64
    ||| k is Float16
    ||| k is Float32
    ||| k is Float64
    ||| k is Decimal128
    ||| k is Utf8
}

/// The document value of a struct field cell: a field of an unsupported
/// physical type has no rule; a null field of a supported type is a null
/// member; otherwise the field's value.
pub open spec fn spec_doc_value(data: ColumnData, row: int) -> DocOutcome {
    if !spec_doc_supported(col_kind(data)) {
        DocOutcome::Unsupported
    } else if col_null_at(data, row) {
        DocOutcome::Value(DocValueV::Null)
    } else {
        match data {
            ColumnData::Bool(v) => DocOutcome::Value(DocValueV::Bool(v@[row].unwrap())),
            ColumnData::Int8(v) => DocOutcome::Value(DocValueV::I64(v@[row].unwrap() as i64)),
            ColumnData::Int16(v) => DocOutcome::Value(DocValueV::I64(v@[row].unwrap() as i64)),
            ColumnData::Int32(v) => DocOutcome::Value(DocValueV::I64(v@[row].unwrap() as i64)),
            ColumnData::Int64(v) => DocOutcome::Value(DocValueV::I64(v@[row].unwrap())),
            ColumnData::UInt8(v) => DocOutcome::Value(DocValueV::U64(v@[row].unwrap() as u64)),
            ColumnData::UInt16(v) => DocOutcome::Value(DocValueV::U64(v@[row].unwrap() as u64)),
            ColumnData::UInt32(v) => DocOutcome::Value(DocValueV::U64(v@[row].unwrap() as u64)),
            ColumnData::UInt64(v) => DocOutcome::Value(DocValueV::U64(v@[row].unwrap())),
            ColumnData::Float16(v) => DocOutcome::Value(DocValueV::F16Bits(v@[row].unwrap())),
            ColumnData::Float32(v) => DocOutcome::Value(DocValueV::F32Bits(v@[row].unwrap())),
            ColumnData::Float64(v) => DocOutcome::Value(DocValueV::F64Bits(v@[row].unwrap())),
            ColumnData::Decimal128 { scale, values, .. } => DocOutcome::Value(
                DocValueV::Numeric(DecimalValue { digits: values@[row].unwrap(), scale }),
            ),
            ColumnData::Utf8(v) => DocOutcome::Value(DocValueV::Text(v@[row].unwrap()@)),
            _ => DocOutcome::Unsupported,
        }
    }
}

/// The document of a struct row: one member per field, in declared schema
/// order, a null field delivered as a null member; the first field of an
/// unsupported type fails the whole conversion, naming the field and its
/// physical type.
pub open spec fn spec_doc_fields(fields: Seq<crate::column::StructField>, row: int) -> Result<
    Seq<(Seq<char>, DocValueV)>,
    (Seq<char>, PhysKind),
>
    decreases fields.len(),
{
    if fields.len() == 0 {
        Ok(Seq::empty())
    } else {
        match spec_doc_value(fields[0].data, row) {
            DocOutcome::Unsupported => Err((fields[0].name@, col_kind(fields[0].data))),
            DocOutcome::Value(v) => match spec_doc_fields(fields.skip(1), row) {
                Ok(rest) => Ok(seq![(fields[0].name@, v)] + rest),
                Err(e) => Err(e),
            },
        }
    }
}

/// The zone identifier a timestamp column carries, if any.
pub open spec fn spec_zone_at(col: ColumnData) -> Option<Seq<char>> {
    match col {
        ColumnData::TimestampSecond { zone, .. } => zone.deep_view(),
        ColumnData::TimestampMillisecond { zone, .. } => zone.deep_view(),
        ColumnData::TimestampMicrosecond { zone, .. } => zone.deep_view(),
        ColumnData::TimestampNanosecond { zone, .. } => zone.deep_view(),
        _ => None,
    }
}

/// The timestamp unit of a timestamp column.
pub open spec fn spec_ts_unit(k: PhysKind) -> TimestampUnit {
    match k {
        PhysKind::TimestampSecond => TimestampUnit::Second,
        PhysKind::TimestampMillisecond => TimestampUnit::Millisecond,
        PhysKind::TimestampMicrosecond => TimestampUnit::Microsecond,
        _ => TimestampUnit::Nanosecond,
    }
}

/// The raw value at `row` of a timestamp column.
pub open spec fn spec_ts_at(col: ColumnData, row: int) -> i64 {
    match col {
        ColumnData::TimestampSecond { values, .. } => values@[row].unwrap(),
        ColumnData::TimestampMillisecond { values, .. } => values@[row].unwrap(),
        ColumnData::TimestampMicrosecond { values, .. } => values@[row].unwrap(),
        ColumnData::TimestampNanosecond { values, .. } => values@[row].unwrap(),
        _ => 0,
    }
}

/// The conversion of the non-null cell at `row` for a declared pair.
pub open spec fn spec_convert_value(col: ColumnData, row: int, target: PgType) -> ConvOutcome {
    match target {
        PgType::Bool => match col {
            ColumnData::Bool(v) => ConvOutcome::Value(CellV::Bool(v@[row].unwrap())),
            _ => ConvOutcome::Mismatch,
        },
        PgType::Int2 => if spec_is_int_kind(col_kind(col)) {
            ConvOutcome::Value(CellV::I16(spec_wrap16(spec_int_at(col, row)) as i16))
        } else {
            match spec_decimal_to_int(spec_decimal_at(col, row), i16::MIN as int, i16::MAX as int) {
                Some(v) => ConvOutcome::Value(CellV::I16(v as i16)),
                None => ConvOutcome::NumericOverflow,
            }
        },
        PgType::Int4 => if spec_is_int_kind(col_kind(col)) {
            ConvOutcome::Value(CellV::I32(spec_wrap32(spec_int_at(col, row)) as i32))
        } else {
            match spec_decimal_to_int(spec_decimal_at(col, row), i32::MIN as int, i32::MAX as int) {
                Some(v) => ConvOutcome::Value(CellV::I32(v as i32)),
                None => ConvOutcome::NumericOverflow,
            }
        },
        PgType::Int8 => if spec_is_int_kind(col_kind(col)) {
            ConvOutcome::Value(CellV::I64(spec_wrap64(spec_int_at(col, row)) as i64))
        } else {
            match spec_decimal_to_int(spec_decimal_at(col, row), i64::MIN as int, i64::MAX as int) {
                Some(v) => ConvOutcome::Value(CellV::I64(v as i64)),
                None => ConvOutcome::NumericOverflow,
            }
        },
        PgType::Float4 => match col {
            ColumnData::Float32(v) => ConvOutcome::Value(CellV::F32Bits(v@[row].unwrap())),
            _ => ConvOutcome::Mismatch,
        },
        PgType::Float8 => match col {
            ColumnData::Float64(v) => ConvOutcome::Value(CellV::F64Bits(v@[row].unwrap())),
            _ => ConvOutcome::Mismatch,
        },
        PgType::Numeric => if spec_is_int_kind(col_kind(col)) {
            ConvOutcome::Value(
                CellV::Numeric(
                    DecimalValue { digits: spec_int_at(col, row) as i128, scale: 0 },
                ),
            )
        } else {
            let d = spec_decimal_at(col, row);
            if wf_decimal(d) {
                ConvOutcome::Value(CellV::Numeric(d))
            } else {
                ConvOutcome::NumericOverflow
            }
        },
        PgType::Text | PgType::Varchar | PgType::Bpchar | PgType::Name => match col {
            ColumnData::Utf8(v) => ConvOutcome::Value(CellV::Text(v@[row].unwrap()@)),
            ColumnData::LargeUtf8(v) => ConvOutcome::Value(CellV::Text(v@[row].unwrap()@)),
            ColumnData::Binary(v) => if vstd::utf8::valid_utf8(v@[row].unwrap()@) {
                ConvOutcome::Value(CellV::Text(vstd::utf8::decode_utf8(v@[row].unwrap()@)))
            } else {
                ConvOutcome::InvalidText
            },
            ColumnData::LargeBinary(v) => if vstd::utf8::valid_utf8(v@[row].unwrap()@) {
                ConvOutcome::Value(CellV::Text(vstd::utf8::decode_utf8(v@[row].unwrap()@)))
            } else {
                ConvOutcome::InvalidText
            },
            _ => ConvOutcome::Mismatch,
        },
        PgType::Bytea => match col {
            ColumnData::Binary(v) => ConvOutcome::Value(CellV::Bytea(v@[row].unwrap()@)),
            ColumnData::LargeBinary(v) => ConvOutcome::Value(CellV::Bytea(v@[row].unwrap()@)),
            ColumnData::Utf8(v) => ConvOutcome::Value(
                CellV::Bytea(vstd::utf8::encode_utf8(v@[row].unwrap()@)),
            ),
            _ => ConvOutcome::Mismatch,
        },
        PgType::Date => match col {
            ColumnData::Date32(v) => {
                let days = v@[row].unwrap() as int;
                if in_i32(days - crate::temporal::EPOCH_SHIFT_DAYS) {
                    ConvOutcome::Value(
                        CellV::Date((days - crate::temporal::EPOCH_SHIFT_DAYS) as i32),
                    )
                } else {
                    ConvOutcome::OutOfRange
                }
            },
            ColumnData::Date64(v) => {
                let d = floor_div(v@[row].unwrap() as int, 86_400_000)
                    - crate::temporal::EPOCH_SHIFT_DAYS;
                if in_i32(d) {
                    ConvOutcome::Value(CellV::Date(d as i32))
                } else {
                    ConvOutcome::OutOfRange
                }
            },
            _ => ConvOutcome::Mismatch,
        },
        PgType::Time => match col {
            ColumnData::Time32Second(v) => spec_time_outcome(
                TimeUnit::Second,
                v@[row].unwrap() as int,
            ),
            ColumnData::Time32Millisecond(v) => spec_time_outcome(
                TimeUnit::Millisecond,
                v@[row].unwrap() as int,
            ),
            ColumnData::Time64Microsecond(v) => spec_time_outcome(
                TimeUnit::Microsecond,
                v@[row].unwrap() as int,
            ),
            ColumnData::Time64Nanosecond(v) => spec_time_outcome(
                TimeUnit::Nanosecond,
                v@[row].unwrap() as int,
            ),
            _ => ConvOutcome::Mismatch,
        },
        PgType::Timestamp => match col {
            ColumnData::Date32(v) => {
                let days = v@[row].unwrap() as int;
                if in_i64((days - crate::temporal::EPOCH_SHIFT_DAYS)
                    * crate::temporal::MICROS_PER_DAY) {
                    ConvOutcome::Value(
                        CellV::Timestamp(
                            ((days - crate::temporal::EPOCH_SHIFT_DAYS)
                                * crate::temporal::MICROS_PER_DAY) as i64,
                        ),
                    )
                } else {
                    ConvOutcome::OutOfRange
                }
            },
            ColumnData::Date64(v) => {
                let ms = v@[row].unwrap() as int;
                if in_i64(ms * 1000 - crate::temporal::EPOCH_SHIFT_MICROS) {
                    ConvOutcome::Value(
                        CellV::Timestamp(
                            (ms * 1000 - crate::temporal::EPOCH_SHIFT_MICROS) as i64,
                        ),
                    )
                } else {
                    ConvOutcome::OutOfRange
                }
            },
            _ => {
                let unit = spec_ts_unit(col_kind(col));
                let v = spec_ts_at(col, row);
                if spec_timestamp_convertible(unit, v as int) {
                    ConvOutcome::Value(CellV::Timestamp(spec_host_micros(unit, v as int) as i64))
                } else {
                    ConvOutcome::OutOfRange
                }
            },
        },
        PgType::TimestampTz => match col {
            ColumnData::Date32(v) => {
                let days = v@[row].unwrap() as int;
                if in_i64((days - crate::temporal::EPOCH_SHIFT_DAYS)
                    * crate::temporal::MICROS_PER_DAY) {
                    ConvOutcome::Value(
                        CellV::TimestampTz(
                            ((days - crate::temporal::EPOCH_SHIFT_DAYS)
                                * crate::temporal::MICROS_PER_DAY) as i64,
                            None,
                        ),
                    )
                } else {
                    ConvOutcome::OutOfRange
                }
            },
            ColumnData::Date64(v) => {
                let ms = v@[row].unwrap() as int;
                if in_i64(ms * 1000 - crate::temporal::EPOCH_SHIFT_MICROS) {
                    ConvOutcome::Value(
                        CellV::TimestampTz(
                            (ms * 1000 - crate::temporal::EPOCH_SHIFT_MICROS) as i64,
                            None,
                        ),
                    )
                } else {
                    ConvOutcome::OutOfRange
                }
            },
            _ => {
                let unit = spec_ts_unit(col_kind(col));
                let v = spec_ts_at(col, row);
                if spec_timestamp_convertible(unit, v as int) {
                    ConvOutcome::Value(
                        CellV::TimestampTz(
                            spec_host_micros(unit, v as int) as i64,
                            spec_zone_at(col),
                        ),
                    )
                } else {
                    ConvOutcome::OutOfRange
                }
            },
        },
        PgType::Interval => match col {
            ColumnData::IntervalYearMonth(v) => ConvOutcome::Value(
                CellV::Interval(
                    crate::cell::IntervalValue {
                        months: v@[row].unwrap(),
                        days: 0,
                        micros: 0,
                    },
                ),
            ),
            ColumnData::IntervalDayTime(v) => {
                let (days, ms) = v@[row].unwrap();
                ConvOutcome::Value(
                    CellV::Interval(
                        crate::cell::IntervalValue {
                            months: 0,
                            days,
                            micros: (ms * 1000) as i64,
                        },
                    ),
                )
            },
            ColumnData::IntervalMonthDayNano(v) => {
                let (months, days, ns) = v@[row].unwrap();
                ConvOutcome::Value(
                    CellV::Interval(
                        crate::cell::IntervalValue {
                            months,
                            days,
                            micros: trunc_div(ns as int, 1000) as i64,
                        },
                    ),
                )
            },
            _ => ConvOutcome::Mismatch,
        },
        PgType::Jsonb => match col {
            ColumnData::Struct(s) => match spec_doc_fields(s.fields@, row) {
                Ok(fields) => ConvOutcome::Value(CellV::Json(fields)),
                Err((name, kind)) => ConvOutcome::UnsupportedField(name, kind),
            },
            _ => ConvOutcome::Mismatch,
        },
        PgType::Uuid => match col {
            ColumnData::Utf8(v) => match uuid_parse(v@[row].unwrap()@) {
                Some(b) => ConvOutcome::Value(CellV::Uuid(b)),
                None => ConvOutcome::InvalidUuid,
            },
            _ => ConvOutcome::Mismatch,
        },
        PgType::Void => ConvOutcome::Null,
        PgType::BoolArray => match col {
            ColumnData::ListBool(v) => ConvOutcome::Value(CellV::BoolArray(v@[row].unwrap()@)),
            _ => ConvOutcome::Mismatch,
        },
        PgType::TextArray | PgType::VarcharArray | PgType::BpcharArray => match col {
            ColumnData::ListUtf8(v) => ConvOutcome::Value(
                CellV::TextArray(v@[row].unwrap().deep_view()),
            ),
            _ => ConvOutcome::Mismatch,
        },
        PgType::Int2Array => match col {
            ColumnData::ListInt16(v) => ConvOutcome::Value(CellV::I16Array(v@[row].unwrap()@)),
            _ => ConvOutcome::Mismatch,
        },
        PgType::Int4Array => match col {
            ColumnData::ListInt32(v) => ConvOutcome::Value(CellV::I32Array(v@[row].unwrap()@)),
            _ => ConvOutcome::Mismatch,
        },
        PgType::Int8Array => match col {
            ColumnData::ListInt64(v) => ConvOutcome::Value(CellV::I64Array(v@[row].unwrap()@)),
            _ => ConvOutcome::Mismatch,
        },
        PgType::Float4Array => match col {
            ColumnData::ListFloat32(v) => ConvOutcome::Value(
                CellV::F32BitsArray(v@[row].unwrap()@),
            ),
            _ => ConvOutcome::Mismatch,
        },
        PgType::Float8Array => match col {
            ColumnData::ListFloat64(v) => ConvOutcome::Value(
                CellV::F64BitsArray(v@[row].unwrap()@),
            ),
            _ => ConvOutcome::Mismatch,
        },
        PgType::Other => ConvOutcome::Mismatch,
    }
}

/// The outcome of a time-of-day conversion.
pub open spec fn spec_time_outcome(unit: TimeUnit, v: int) -> ConvOutcome {
    if spec_time_valid(unit, v) {
        ConvOutcome::Value(CellV::Time(spec_time_micros(unit, v) as i64))
    } else {
        ConvOutcome::InvalidTime
    }
}

/// The full conversion of the cell at `row`: an undeclared pair is a
/// mismatch before anything else; a null cell of a declared pair is a null
/// cell; otherwise the pair's rule applies.
pub open spec fn spec_convert(col: ColumnData, row: int, target: PgType) -> ConvOutcome {
    if !spec_supported_pair(col_kind(col), target) {
        ConvOutcome::Mismatch
    } else if col_null_at(col, row) {
        ConvOutcome::Null
    } else {
        spec_convert_value(col, row, target)
    }
}

/// A failed conversion, always naming the column.
#[derive(Clone, PartialEq, Debug)]
pub enum ConversionError {
    /// No conversion is declared between the source physical type and the
    /// requested target type.
    DataTypeMismatch { column: String, source: PhysKind, target: PgType },
    /// The converted value does not fit the host representation.
    OutOfRange { column: String, source: PhysKind, target: PgType },
    /// A time of day outside one day.
    InvalidTime { column: String },
    /// Bytes delivered to a text target are not plain text.
    InvalidText { column: String },
    /// A UUID string the parser does not accept.
    InvalidUuid { column: String },
    /// A decimal that does not fit the target numeric representation.
    NumericConversion { column: String },
    /// A struct field of an unsupported physical type, naming the field and
    /// its type.
    UnsupportedStructField { column: String, field: String, kind: PhysKind },
}

/// How an executable conversion result realizes an abstract outcome for
/// column `column` with source kind `k` and target `t`.
pub open spec fn spec_result_matches(
    r: Result<Option<Cell>, ConversionError>,
    o: ConvOutcome,
    column: Seq<char>,
    k: PhysKind,
    t: PgType,
) -> bool {
    match r {
        Ok(None) => o is Null,
        Ok(Some(c)) => o == ConvOutcome::Value(c@),
        Err(e) => match e {
            ConversionError::DataTypeMismatch { column: c, source, target } => o is Mismatch && c@
                == column && source == k && target == t,
            ConversionError::OutOfRange { column: c, source, target } => o is OutOfRange && c@
                == column && source == k && target == t,
            ConversionError::InvalidTime { column: c } => o is InvalidTime && c@ == column,
            ConversionError::InvalidText { column: c } => o is InvalidText && c@ == column,
            ConversionError::InvalidUuid { column: c } => o is InvalidUuid && c@ == column,
            ConversionError::NumericConversion { column: c } => o is NumericOverflow && c@
                == column,
            ConversionError::UnsupportedStructField { column: c, field, kind } => o
                == ConvOutcome::UnsupportedField(field@, kind) && c@ == column,
        },
    }
}

/// Copies an optional-value vector.
fn copy_opts<T: Copy>(v: &Vec<Option<T>>) -> (r: Vec<Option<T>>)
    ensures
        r@ == v@,
{
    let mut r: Vec<Option<T>> = Vec::new();
    let n = v.len();
    let mut i: usize = 0;
    while i < n
        invariant
            i <= n,
            n == v@.len(),
            r@ == v@.take(i as int),
        decreases n - i,
    {
        r.push(v[i]);
        proof {
            assert(r@ =~= v@.take(i + 1 as int));
        }
        i = i + 1;
    }
    proof {
        assert(v@.take(n as int) =~= v@);
    }
    r
}

/// Copies an optional-string vector; each string keeps its exact content.
fn copy_opt_strings(v: &Vec<Option<String>>) -> (r: Vec<Option<String>>)
    ensures
        r@ == v@,
{
    let mut r: Vec<Option<String>> = Vec::new();
    let n = v.len();
    let mut i: usize = 0;
    while i < n
        invariant
            i <= n,
            n == v@.len(),
            r@ == v@.take(i as int),
        decreases n - i,
    {
        match &v[i] {
            Some(s) => {
                r.push(Some(s.clone()));
            },
            None => {
                r.push(None);
            },
        }
        proof {
            assert(r@ =~= v@.take(i + 1 as int));
        }
        i = i + 1;
    }
    proof {
        assert(v@.take(n as int) =~= v@);
    }
    r
}

/// Copies a byte vector.
fn copy_bytes(v: &Vec<u8>) -> (r: Vec<u8>)
    ensures
        r@ == v@,
{
    let mut r: Vec<u8> = Vec::new();
    let n = v.len();
    let mut i: usize = 0;
    while i < n
        invariant
            i <= n,
            n == v@.len(),
            r@ == v@.take(i as int),
        decreases n - i,
    {
        r.push(v[i]);
        proof {
            assert(r@ =~= v@.take(i + 1 as int));
        }
        i = i + 1;
    }
    proof {
        assert(v@.take(n as int) =~= v@);
    }
    r
}

/// Relies on str::from_utf8: succeeds exactly on well-formed UTF-8 and
/// reads the bytes back as the text they encode, so the returned string's
/// encoding is the input bytes.
#[verifier::external_body]
fn bytes_to_utf8(b: &Vec<u8>) -> (r: Option<String>)
    ensures
        match r {
            Some(s) => vstd::utf8::valid_utf8(b@) && vstd::utf8::encode_utf8(s@) == b@,
            None => !vstd::utf8::valid_utf8(b@),
        },
{
    match core::str::from_utf8(b.as_slice()) {
        Ok(s) => Some(s.to_string()),
        Err(_) => None,
    }
}

/// Decodes a byte column cell as text: delivered exactly when the bytes
/// are well-formed UTF-8, refused otherwise.
fn utf8_text(b: &Vec<u8>) -> (r: Option<String>)
    ensures
        match r {
            Some(s) => vstd::utf8::valid_utf8(b@) && s@ == vstd::utf8::decode_utf8(b@),
            None => !vstd::utf8::valid_utf8(b@),
        },
{
    match bytes_to_utf8(b) {
        Some(s) => {
            proof {
                vstd::utf8::encode_utf8_decode_utf8(s@);
            }
            Some(s)
        },
        None => None,
    }
}

/// Copies a zone identifier.
fn clone_zone(z: &Option<String>) -> (r: Option<String>)
    ensures
        r == *z,
{
    match z {
        Some(s) => Some(s.clone()),
        None => None,
    }
}

/// The exact integer a decimal denotes within `[lo, hi]`, per
/// `spec_decimal_to_int`.
fn decimal_to_int(d: DecimalValue, lo: i128, hi: i128) -> (r: Option<i128>)
    ensures
        match r {
            Some(v) => spec_decimal_to_int(d, lo as int, hi as int) == Some(v as int),
            None => spec_decimal_to_int(d, lo as int, hi as int) is None,
        },
{
    if d.scale > 38 {
        return None;
    }
    if d.scale == 0 {
        proof {
            assert(pow10(0) == 1);
            assert(d.digits as int % 1 == 0);
            assert(d.digits as int / 1 == d.digits as int);
        }
        if lo <= d.digits && d.digits <= hi {
            return Some(d.digits);
        } else {
            return None;
        }
    }
    let p = pow10_u128(d.scale as u32);
    proof {
        crate::decimal::lemma_pow10_pos(d.scale as nat);
        crate::decimal::lemma_pow10_38();
        crate::decimal::lemma_pow10_mono(d.scale as nat, 38);
    }
    let neg = d.digits < 0;
    let mag: u128 = if neg {
        if d.digits == i128::MIN {
            0x8000_0000_0000_0000_0000_0000_0000_0000u128
        } else {
            (-d.digits) as u128
        }
    } else {
        d.digits as u128
    };
    let q = mag / p;
    let rem = mag % p;
    proof {
        vstd::arithmetic::div_mod::lemma_fundamental_div_mod(mag as int, p as int);
        vstd::arithmetic::div_mod::lemma_mod_bound(mag as int, p as int);
        if neg {
            // relate the magnitude's division to the signed value's
            if rem == 0 {
                assert(d.digits as int == (p as int) * (-(q as int)) + 0) by {
                    vstd::arithmetic::mul::lemma_mul_unary_negation(p as int, q as int);
                }
                vstd::arithmetic::div_mod::lemma_fundamental_div_mod_converse(
                    d.digits as int,
                    p as int,
                    -(q as int),
                    0,
                );
            } else {
                assert(d.digits as int == (p as int) * (-(q as int) - 1) + (p - rem)) by {
                    vstd::arithmetic::mul::lemma_mul_is_distributive_sub_other_way(
                        p as int,
                        -(q as int),
                        1,
                    );
                    vstd::arithmetic::mul::lemma_mul_unary_negation(p as int, q as int);
                }
                vstd::arithmetic::div_mod::lemma_fundamental_div_mod_converse(
                    d.digits as int,
                    p as int,
                    -(q as int) - 1,
                    p as int - rem as int,
                );
            }
        }
    }
    if rem != 0 {
        return None;
    }
    let value: i128 = if neg {
        proof {
            assert(q * (p as int) <= mag as int) by {
                vstd::arithmetic::mul::lemma_mul_inequality(1, p as int, q as int);
                vstd::arithmetic::mul::lemma_mul_is_commutative(q as int, p as int);
            }
            assert(q as int <= mag as int);
        }
        if q == 0x8000_0000_0000_0000_0000_0000_0000_0000u128 {
            i128::MIN
        } else {
            -(q as i128)
        }
    } else {
        q as i128
    };
    if lo <= value && value <= hi {
        Some(value)
    } else {
        None
    }
}

/// What one struct field cell reads as.
enum DocRead {
    Unsupported,
    Value(DocValue),
}

/// Reads one struct field cell as a document value; a null field of a
/// supported type reads as a null member.
fn doc_value_at(data: &ColumnData, row: usize) -> (r: DocRead)
    requires
        row < col_len(*data),
    ensures
        match r {
            DocRead::Unsupported => spec_doc_value(*data, row as int) is Unsupported,
            DocRead::Value(v) => spec_doc_value(*data, row as int) == DocOutcome::Value(v@),
        },
{
    match data {
        ColumnData::Bool(v) => match v[row] {
            Some(b) => DocRead::Value(DocValue::Bool(b)),
            None => DocRead::Value(DocValue::Null),
        },
        ColumnData::Int8(v) => match v[row] {
            Some(x) => DocRead::Value(DocValue::I64(x as i64)),
            None => DocRead::Value(DocValue::Null),
        },
        ColumnData::Int16(v) => match v[row] {
            Some(x) => DocRead::Value(DocValue::I64(x as i64)),
            None => DocRead::Value(DocValue::Null),
        },
        ColumnData::Int32(v) => match v[row] {
            Some(x) => DocRead::Value(DocValue::I64(x as i64)),
            None => DocRead::Value(DocValue::Null),
        },
        ColumnData::Int64(v) => match v[row] {
            Some(x) => DocRead::Value(DocValue::I64(x)),
            None => DocRead::Value(DocValue::Null),
        },
        ColumnData::UInt8(v) => match v[row] {
            Some(x) => DocRead::Value(DocValue::U64(x as u64)),
            None => DocRead::Value(DocValue::Null),
        },
        ColumnData::UInt16(v) => match v[row] {
            Some(x) => DocRead::Value(DocValue::U64(x as u64)),
            None => DocRead::Value(DocValue::Null),
        },
        ColumnData::UInt32(v) => match v[row] {
            Some(x) => DocRead::Value(DocValue::U64(x as u64)),
            None => DocRead::Value(DocValue::Null),
        },
        ColumnData::UInt64(v) => match v[row] {
            Some(x) => DocRead::Value(DocValue::U64(x)),
            None => DocRead::Value(DocValue::Null),
        },
        ColumnData::Float16(v) => match v[row] {
            Some(x) => DocRead::Value(DocValue::F16Bits(x)),
            None => DocRead::Value(DocValue::Null),
        },
        ColumnData::Float32(v) => match v[row] {
            Some(x) => DocRead::Value(DocValue::F32Bits(x)),
            None => DocRead::Value(DocValue::Null),
        },
        ColumnData::Float64(v) => match v[row] {
            Some(x) => DocRead::Value(DocValue::F64Bits(x)),
            None => DocRead::Value(DocValue::Null),
        },
        ColumnData::Decimal128 { scale, values, .. } => match values[row] {
            Some(x) => DocRead::Value(
                DocValue::Numeric(DecimalValue { digits: x, scale: *scale }),
            ),
            None => DocRead::Value(DocValue::Null),
        },
        ColumnData::Utf8(v) => match &v[row] {
            Some(s) => DocRead::Value(DocValue::Text(s.clone())),
            None => DocRead::Value(DocValue::Null),
        },
        _ => DocRead::Unsupported,
    }
}

/// Combines an already-emitted document prefix with the rest's outcome.
pub open spec fn spec_doc_append(
    prefix: Seq<(Seq<char>, DocValueV)>,
    rest: Result<Seq<(Seq<char>, DocValueV)>, (Seq<char>, PhysKind)>,
) -> Result<Seq<(Seq<char>, DocValueV)>, (Seq<char>, PhysKind)> {
    match rest {
        Ok(s) => Ok(prefix + s),
        Err(e) => Err(e),
    }
}

/// Converts a struct row into a document: one member per field, in declared
/// schema order, null fields delivered as null members; the first field of
/// an unsupported physical type fails the conversion, naming the field and
/// its type.
fn convert_struct(s: &StructColumn, row: usize) -> (r: Result<Document, (String, PhysKind)>)
    requires
        crate::column::wf_struct(*s),
        row < s.nulls@.len(),
    ensures
        match r {
            Ok(doc) => spec_doc_fields(s.fields@, row as int) == Ok::<_, (Seq<char>, PhysKind)>(
                doc@,
            ),
            Err((name, kind)) => spec_doc_fields(s.fields@, row as int) == Err::<
                Seq<(Seq<char>, DocValueV)>,
                _,
            >((name@, kind)),
        },
{
    let mut fields: Vec<(String, DocValue)> = Vec::new();
    let n = s.fields.len();
    let ghost docv = |f: Seq<(String, DocValue)>|
        f.map_values(|p: (String, DocValue)| (p.0@, p.1@));
    proof {
        assert(s.fields@.skip(0) =~= s.fields@);
        assert(docv(fields@) =~~= Seq::<(Seq<char>, DocValueV)>::empty());
        match spec_doc_fields(s.fields@, row as int) {
            Ok(t) => {
                assert(Seq::<(Seq<char>, DocValueV)>::empty() + t =~~= t);
            },
            Err(_) => {},
        }
    }
    let mut i: usize = 0;
    while i < n
        invariant
            i <= n,
            n == s.fields@.len(),
            crate::column::wf_struct(*s),
            row < s.nulls@.len(),
            docv == (|f: Seq<(String, DocValue)>|
                f.map_values(|p: (String, DocValue)| (p.0@, p.1@))),
            spec_doc_fields(s.fields@, row as int) == spec_doc_append(
                docv(fields@),
                spec_doc_fields(s.fields@.skip(i as int), row as int),
            ),
        decreases n - i,
    {
        let ghost rest = s.fields@.skip(i as int);
        proof {
            assert(rest[0] == s.fields@[i as int]);
            assert(rest.skip(1) =~= s.fields@.skip(i + 1 as int));
            assert(col_len(s.fields@[i as int].data) == s.nulls@.len());
        }
        match doc_value_at(&s.fields[i].data, row) {
            DocRead::Unsupported => {
                let kind = s.fields[i].data.kind();
                return Err((s.fields[i].name.clone(), kind));
            },
            DocRead::Value(v) => {
                let ghost before = fields@;
                fields.push((s.fields[i].name.clone(), v));
                proof {
                    assert(docv(fields@) =~~= docv(before) + seq![
                        (s.fields@[i as int].name@, v@),
                    ]);
                    assert(docv(before) + (seq![(s.fields@[i as int].name@, v@)] + match
                        spec_doc_fields(s.fields@.skip(i + 1 as int), row as int) {
                        Ok(t) => t,
                        Err(_) => Seq::empty(),
                    }) =~~= (docv(before) + seq![(s.fields@[i as int].name@, v@)]) + match
                        spec_doc_fields(s.fields@.skip(i + 1 as int), row as int) {
                        Ok(t) => t,
                        Err(_) => Seq::empty(),
                    });
                }
            },
        }
        i = i + 1;
    }
    proof {
        assert(s.fields@.skip(n as int) =~= Seq::<crate::column::StructField>::empty());
        let whole = spec_doc_fields(s.fields@, row as int);
        assert(whole == spec_doc_append(
            docv(fields@),
            Ok::<_, (Seq<char>, PhysKind)>(Seq::<(Seq<char>, DocValueV)>::empty()),
        ));
        assert(docv(fields@) + Seq::<(Seq<char>, DocValueV)>::empty() =~~= docv(fields@));
        let doc = Document { fields };
        assert(doc@ == docv(fields@));
    }
    Ok(Document { fields })
}

/// The decimal at `row` of a decimal column.
fn decimal_at(col: &ColumnData, row: usize) -> (d: DecimalValue)
    requires
        row < col_len(*col),
        col_kind(*col) is Decimal128,
        !col_null_at(*col, row as int),
    ensures
        d == spec_decimal_at(*col, row as int),
{
    match col {
        ColumnData::Decimal128 { scale, values, .. } => DecimalValue {
            digits: values[row].unwrap(),
            scale: *scale,
        },
        _ => {
            proof {
                assert(false);
            }
            DecimalValue { digits: 0, scale: 0 }
        },
    }
}

/// The unit of a timestamp column kind.
fn ts_unit_of(kind: PhysKind) -> (r: TimestampUnit)
    ensures
        r == spec_ts_unit(kind),
{
    match kind {
        PhysKind::TimestampSecond => TimestampUnit::Second,
        PhysKind::TimestampMillisecond => TimestampUnit::Millisecond,
        PhysKind::TimestampMicrosecond => TimestampUnit::Microsecond,
        _ => TimestampUnit::Nanosecond,
    }
}

/// The raw value at `row` of a timestamp column.
fn ts_value_at(col: &ColumnData, row: usize) -> (r: i64)
    requires
        row < col_len(*col),
        col_kind(*col) is TimestampSecond || col_kind(*col) is TimestampMillisecond || col_kind(
            *col,
        ) is TimestampMicrosecond || col_kind(*col) is TimestampNanosecond,
        !col_null_at(*col, row as int),
    ensures
        r == spec_ts_at(*col, row as int),
{
    match col {
        ColumnData::TimestampSecond { values, .. } => values[row].unwrap(),
        ColumnData::TimestampMillisecond { values, .. } => values[row].unwrap(),
        ColumnData::TimestampMicrosecond { values, .. } => values[row].unwrap(),
        ColumnData::TimestampNanosecond { values, .. } => values[row].unwrap(),
        _ => {
            proof {
                assert(false);
            }
            0
        },
    }
}

/// The zone identifier of a timestamp column.
fn ts_zone_of(col: &ColumnData) -> (r: Option<String>)
    ensures
        r.deep_view() == spec_zone_at(*col),
{
    match col {
        ColumnData::TimestampSecond { zone, .. } => clone_zone(zone),
        ColumnData::TimestampMillisecond { zone, .. } => clone_zone(zone),
        ColumnData::TimestampMicrosecond { zone, .. } => clone_zone(zone),
        ColumnData::TimestampNanosecond { zone, .. } => clone_zone(zone),
        _ => None,
    }
}

/// Converts the cell at `row` of a validated column to the requested host
/// type.
///
/// The contract is total over the declared matrix: a pair without a rule is
/// a `DataTypeMismatch` naming the column, the source physical type and the
/// target type, and nothing else ever is; a null source cell of a declared
/// pair is always delivered as a null target cell, never a default; a
/// non-null cell converts by the pair's explicit rule (`spec_convert`),
/// with narrowing through the declared two's-complement chain, decimal
/// values through their canonical string, temporal values by exact epoch
/// arithmetic, and lists preserving length and per-element null slots.
#[verifier::rlimit(60)]
pub fn convert_cell(col: &ColumnData, row: usize, target: PgType, column: &str) -> (r: Result<
    Option<Cell>,
    ConversionError,
>)
    requires
        row < col_len(*col),
        crate::column::wf_column(*col),
    ensures
        spec_result_matches(r, spec_convert(*col, row as int, target), column@, col_kind(*col), target),
        (r matches Err(ConversionError::DataTypeMismatch { .. })) == !spec_supported_pair(
            col_kind(*col),
            target,
        ),
        spec_supported_pair(col_kind(*col), target) && col_null_at(*col, row as int) ==> r == Ok::<
            Option<Cell>,
            ConversionError,
        >(None),
{
    let kind = col.kind();
    if !supported_pair(kind, target) {
        return Err(
            ConversionError::DataTypeMismatch {
                column: String::from_str(column),
                source: kind,
                target,
            },
        );
    }
    if col.is_null_at(row) {
        return Ok(None);
    }
    match target {
        PgType::Bool => match col {
            ColumnData::Bool(v) => Ok(Some(Cell::Bool(v[row].unwrap()))),
            _ => {
                proof {
                    assert(false);
                }
                Ok(None)
            },
        },
        PgType::Int2 => {
            if matches!(kind, PhysKind::Decimal128) {
                let d = decimal_at(col, row);
                match decimal_to_int(d, -32768, 32767) {
                    Some(v) => Ok(Some(Cell::I16(v as i16))),
                    None => Err(
                        ConversionError::NumericConversion { column: String::from_str(column) },
                    ),
                }
            } else {
                let w = match int_source(col, row) {
                    IntSource::Signed(v) => wrap16_i64(v),
                    IntSource::Unsigned(v) => wrap16_u64(v),
                };
                Ok(Some(Cell::I16(w)))
            }
        },
        PgType::Int4 => {
            if matches!(kind, PhysKind::Decimal128) {
                let d = decimal_at(col, row);
                match decimal_to_int(d, -2147483648, 2147483647) {
                    Some(v) => Ok(Some(Cell::I32(v as i32))),
                    None => Err(
                        ConversionError::NumericConversion { column: String::from_str(column) },
                    ),
                }
            } else {
                let w = match int_source(col, row) {
                    IntSource::Signed(v) => wrap32_i64(v),
                    IntSource::Unsigned(v) => wrap32_u64(v),
                };
                Ok(Some(Cell::I32(w)))
            }
        },
        PgType::Int8 => {
            if matches!(kind, PhysKind::Decimal128) {
                let d = decimal_at(col, row);
                match decimal_to_int(d, i64::MIN as i128, i64::MAX as i128) {
                    Some(v) => Ok(Some(Cell::I64(v as i64))),
                    None => Err(
                        ConversionError::NumericConversion { column: String::from_str(column) },
                    ),
                }
            } else {
                let w = match int_source(col, row) {
                    IntSource::Signed(v) => v,
                    IntSource::Unsigned(v) => wrap64_u64(v),
                };
                proof {
                    if spec_is_int_kind(col_kind(*col)) {
                        let sv = spec_int_at(*col, row as int);
                        if i64::MIN <= sv <= i64::MAX {
                            assert(spec_wrap64(sv) == sv || sv < 0x8000_0000_0000_0000) by {
                                if 0 <= sv < 0x8000_0000_0000_0000 {
                                    assert(sv % 0x1_0000_0000_0000_0000 == sv);
                                } else if sv < 0 {
                                    assert(sv % 0x1_0000_0000_0000_0000 == sv
                                        + 0x1_0000_0000_0000_0000);
                                }
                            }
                        }
                    }
                }
                Ok(Some(Cell::I64(w)))
            }
        },
        PgType::Float4 => match col {
            ColumnData::Float32(v) => Ok(Some(Cell::F32Bits(v[row].unwrap()))),
            _ => {
                proof {
                    assert(false);
                }
                Ok(None)
            },
        },
        PgType::Float8 => match col {
            ColumnData::Float64(v) => Ok(Some(Cell::F64Bits(v[row].unwrap()))),
            _ => {
                proof {
                    assert(false);
                }
                Ok(None)
            },
        },
        PgType::Numeric => {
            if matches!(kind, PhysKind::Decimal128) {
                let d = decimal_at(col, row);
                proof {
                    crate::decimal::lemma_pow10_38();
                }
                let fits = d.scale <= 38 && d.digits
                    > -100000000000000000000000000000000000000i128 && d.digits
                    < 100000000000000000000000000000000000000i128;
                if fits {
                    proof {
                        assert(wf_decimal(d));
                    }
                    let text = format_decimal(d);
                    match parse_decimal(text.as_str()) {
                        Some(d2) => {
                            proof {
                                lemma_decimal_round_trip(d);
                            }
                            Ok(Some(Cell::Numeric(d2)))
                        },
                        None => {
                            proof {
                                lemma_decimal_round_trip(d);
                                assert(false);
                            }
                            Ok(None)
                        },
                    }
                } else {
                    Err(ConversionError::NumericConversion { column: String::from_str(column) })
                }
            } else {
                let v128: i128 = match int_source(col, row) {
                    IntSource::Signed(v) => v as i128,
                    IntSource::Unsigned(v) => v as i128,
                };
                Ok(Some(Cell::Numeric(DecimalValue { digits: v128, scale: 0 })))
            }
        },
        PgType::Text | PgType::Varchar | PgType::Bpchar | PgType::Name => match col {
            ColumnData::Utf8(v) => Ok(Some(Cell::String(v[row].as_ref().unwrap().clone()))),
            ColumnData::LargeUtf8(v) => Ok(Some(Cell::String(v[row].as_ref().unwrap().clone()))),
            ColumnData::Binary(v) => match utf8_text(v[row].as_ref().unwrap()) {
                Some(s) => Ok(Some(Cell::String(s))),
                None => Err(ConversionError::InvalidText { column: String::from_str(column) }),
            },
            ColumnData::LargeBinary(v) => match utf8_text(v[row].as_ref().unwrap()) {
                Some(s) => Ok(Some(Cell::String(s))),
                None => Err(ConversionError::InvalidText { column: String::from_str(column) }),
            },
            _ => {
                proof {
                    assert(false);
                }
                Ok(None)
            },
        },
        PgType::Bytea => match col {
            ColumnData::Binary(v) => Ok(Some(Cell::Bytea(copy_bytes(v[row].as_ref().unwrap())))),
            ColumnData::LargeBinary(v) => Ok(
                Some(Cell::Bytea(copy_bytes(v[row].as_ref().unwrap()))),
            ),
            ColumnData::Utf8(v) => {
                let s = v[row].as_ref().unwrap();
                let bytes = s.as_str().as_bytes_vec();
                Ok(Some(Cell::Bytea(bytes)))
            },
            _ => {
                proof {
                    assert(false);
                }
                Ok(None)
            },
        },
        PgType::Date => match col {
            ColumnData::Date32(v) => match date32_to_date(v[row].unwrap()) {
                Ok(d) => Ok(Some(Cell::Date(d))),
                Err(_) => Err(
                    ConversionError::OutOfRange {
                        column: String::from_str(column),
                        source: kind,
                        target,
                    },
                ),
            },
            ColumnData::Date64(v) => match date64_to_date(v[row].unwrap()) {
                Ok(d) => Ok(Some(Cell::Date(d))),
                Err(_) => Err(
                    ConversionError::OutOfRange {
                        column: String::from_str(column),
                        source: kind,
                        target,
                    },
                ),
            },
            _ => {
                proof {
                    assert(false);
                }
                Ok(None)
            },
        },
        PgType::Time => {
            let (unit, v): (TimeUnit, i64) = match col {
                ColumnData::Time32Second(v) => (TimeUnit::Second, v[row].unwrap() as i64),
                ColumnData::Time32Millisecond(v) => (TimeUnit::Millisecond, v[row].unwrap() as i64),
                ColumnData::Time64Microsecond(v) => (TimeUnit::Microsecond, v[row].unwrap()),
                ColumnData::Time64Nanosecond(v) => (TimeUnit::Nanosecond, v[row].unwrap()),
                _ => {
                    proof {
                        assert(false);
                    }
                    (TimeUnit::Second, 0)
                },
            };
            match time_to_host_micros(unit, v) {
                Ok(t) => Ok(Some(Cell::Time(t))),
                Err(_) => Err(ConversionError::InvalidTime { column: String::from_str(column) }),
            }
        },
        PgType::Timestamp => match col {
            ColumnData::Date32(v) => match date32_to_timestamp_micros(v[row].unwrap()) {
                Ok(t) => Ok(Some(Cell::Timestamp(t))),
                Err(_) => Err(
                    ConversionError::OutOfRange {
                        column: String::from_str(column),
                        source: kind,
                        target,
                    },
                ),
            },
            ColumnData::Date64(v) => match date64_to_timestamp_micros(v[row].unwrap()) {
                Ok(t) => Ok(Some(Cell::Timestamp(t))),
                Err(_) => Err(
                    ConversionError::OutOfRange {
                        column: String::from_str(column),
                        source: kind,
                        target,
                    },
                ),
            },
            _ => {
                let unit = ts_unit_of(kind);
                let v = ts_value_at(col, row);
                match timestamp_to_host_micros(unit, v) {
                    Ok(t) => Ok(Some(Cell::Timestamp(t))),
                    Err(_) => Err(
                        ConversionError::OutOfRange {
                            column: String::from_str(column),
                            source: kind,
                            target,
                        },
                    ),
                }
            },
        },
        PgType::TimestampTz => match col {
            ColumnData::Date32(v) => match date32_to_timestamp_micros(v[row].unwrap()) {
                Ok(t) => Ok(Some(Cell::TimestampTz(t, None))),
                Err(_) => Err(
                    ConversionError::OutOfRange {
                        column: String::from_str(column),
                        source: kind,
                        target,
                    },
                ),
            },
            ColumnData::Date64(v) => match date64_to_timestamp_micros(v[row].unwrap()) {
                Ok(t) => Ok(Some(Cell::TimestampTz(t, None))),
                Err(_) => Err(
                    ConversionError::OutOfRange {
                        column: String::from_str(column),
                        source: kind,
                        target,
                    },
                ),
            },
            _ => {
                let unit = ts_unit_of(kind);
                let v = ts_value_at(col, row);
                match timestamp_to_host_micros(unit, v) {
                    Ok(t) => {
                        let zone = ts_zone_of(col);
                        Ok(Some(Cell::TimestampTz(t, zone)))
                    },
                    Err(_) => Err(
                        ConversionError::OutOfRange {
                            column: String::from_str(column),
                            source: kind,
                            target,
                        },
                    ),
                }
            },
        },
        PgType::Interval => match col {
            ColumnData::IntervalYearMonth(v) => Ok(
                Some(Cell::Interval(interval_from_year_month(v[row].unwrap()))),
            ),
            ColumnData::IntervalDayTime(v) => {
                let (days, ms) = v[row].unwrap();
                Ok(Some(Cell::Interval(interval_from_day_time(days, ms))))
            },
            ColumnData::IntervalMonthDayNano(v) => {
                let (months, days, ns) = v[row].unwrap();
                Ok(Some(Cell::Interval(interval_from_month_day_nano(months, days, ns))))
            },
            _ => {
                proof {
                    assert(false);
                }
                Ok(None)
            },
        },
        PgType::Jsonb => match col {
            ColumnData::Struct(s) => match convert_struct(s, row) {
                Ok(doc) => Ok(Some(Cell::Json(doc))),
                Err((field, kind)) => Err(
                    ConversionError::UnsupportedStructField {
                        column: String::from_str(column),
                        field,
                        kind,
                    },
                ),
            },
            _ => {
                proof {
                    assert(false);
                }
                Ok(None)
            },
        },
        PgType::Uuid => match col {
            ColumnData::Utf8(v) => match parse_uuid(v[row].as_ref().unwrap().as_str()) {
                Some(bytes) => Ok(Some(Cell::Uuid(bytes))),
                None => Err(ConversionError::InvalidUuid { column: String::from_str(column) }),
            },
            _ => {
                proof {
                    assert(false);
                }
                Ok(None)
            },
        },
        PgType::Void => {
            proof {
                assert(false);
            }
            Ok(None)
        },
        PgType::BoolArray => match col {
            ColumnData::ListBool(v) => Ok(
                Some(Cell::BoolArray(copy_opts(v[row].as_ref().unwrap()))),
            ),
            _ => {
                proof {
                    assert(false);
                }
                Ok(None)
            },
        },
        PgType::TextArray | PgType::VarcharArray | PgType::BpcharArray => match col {
            ColumnData::ListUtf8(v) => Ok(
                Some(Cell::StringArray(copy_opt_strings(v[row].as_ref().unwrap()))),
            ),
            _ => {
                proof {
                    assert(false);
                }
                Ok(None)
            },
        },
        PgType::Int2Array => match col {
            ColumnData::ListInt16(v) => Ok(
                Some(Cell::I16Array(copy_opts(v[row].as_ref().unwrap()))),
            ),
            _ => {
                proof {
                    assert(false);
                }
                Ok(None)
            },
        },
        PgType::Int4Array => match col {
            ColumnData::ListInt32(v) => Ok(
                Some(Cell::I32Array(copy_opts(v[row].as_ref().unwrap()))),
            ),
            _ => {
                proof {
                    assert(false);
                }
                Ok(None)
            },
        },
        PgType::Int8Array => match col {
            ColumnData::ListInt64(v) => Ok(
                Some(Cell::I64Array(copy_opts(v[row].as_ref().unwrap()))),
            ),
            _ => {
                proof {
                    assert(false);
                }
                Ok(None)
            },
        },
        PgType::Float4Array => match col {
            ColumnData::ListFloat32(v) => Ok(
                Some(Cell::F32BitsArray(copy_opts(v[row].as_ref().unwrap()))),
            ),
            _ => {
                proof {
                    assert(false);
                }
                Ok(None)
            },
        },
        PgType::Float8Array => match col {
            ColumnData::ListFloat64(v) => Ok(
                Some(Cell::F64BitsArray(copy_opts(v[row].as_ref().unwrap()))),
            ),
            _ => {
                proof {
                    assert(false);
                }
                Ok(None)
            },
        },
        PgType::Other => {
            proof {
                assert(false);
            }
            Ok(None)
        },
    }
}

/// Round-trip of integer narrowing: a value already within the narrow
/// type's range passes the declared two's-complement cast chain unchanged,
/// so widening a host value into an engine column and converting it back
/// preserves it exactly.
pub proof fn lemma_narrow_round_trip(v: int)
    ensures
        -0x8000 <= v < 0x8000 ==> spec_wrap16(v) == v,
        -0x8000_0000 <= v < 0x8000_0000 ==> spec_wrap32(v) == v,
        -0x8000_0000_0000_0000 <= v < 0x8000_0000_0000_0000 ==> spec_wrap64(v) == v,
{
    if -0x8000 <= v < 0x8000 {
        if v >= 0 {
            assert(v % 0x10000 == v);
        } else {
            assert(v % 0x10000 == v + 0x10000);
        }
    }
    if -0x8000_0000 <= v < 0x8000_0000 {
        if v >= 0 {
            assert(v % 0x1_0000_0000 == v);
        } else {
            assert(v % 0x1_0000_0000 == v + 0x1_0000_0000);
        }
    }
    if -0x8000_0000_0000_0000 <= v < 0x8000_0000_0000_0000 {
        if v >= 0 {
            assert(v % 0x1_0000_0000_0000_0000 == v);
        } else {
            assert(v % 0x1_0000_0000_0000_0000 == v + 0x1_0000_0000_0000_0000);
        }
    }
}

/// Null preservation inside converted lists: the delivered array holds
/// exactly the source list's slots, so the cardinality is invariant and a
/// null element stays a null slot, never a default, at the same position.
pub proof fn lemma_list_null_preservation(col: ColumnData, row: int)
    requires
        0 <= row < col_len(col),
        !col_null_at(col, row),
    ensures
        match col {
            ColumnData::ListBool(v) => spec_convert(col, row, PgType::BoolArray)
                == ConvOutcome::Value(CellV::BoolArray(v@[row].unwrap()@)),
            ColumnData::ListInt16(v) => spec_convert(col, row, PgType::Int2Array)
                == ConvOutcome::Value(CellV::I16Array(v@[row].unwrap()@)),
            ColumnData::ListInt32(v) => spec_convert(col, row, PgType::Int4Array)
                == ConvOutcome::Value(CellV::I32Array(v@[row].unwrap()@)),
            ColumnData::ListInt64(v) => spec_convert(col, row, PgType::Int8Array)
                == ConvOutcome::Value(CellV::I64Array(v@[row].unwrap()@)),
            ColumnData::ListFloat32(v) => spec_convert(col, row, PgType::Float4Array)
                == ConvOutcome::Value(CellV::F32BitsArray(v@[row].unwrap()@)),
            ColumnData::ListFloat64(v) => spec_convert(col, row, PgType::Float8Array)
                == ConvOutcome::Value(CellV::F64BitsArray(v@[row].unwrap()@)),
            ColumnData::ListUtf8(v) => spec_convert(col, row, PgType::TextArray)
                == ConvOutcome::Value(CellV::TextArray(v@[row].unwrap().deep_view())),
            _ => true,
        },
{
}

/// Null preservation inside converted documents: when every declared field
/// type has a document rule, the document holds exactly one member per
/// field, in schema order and under the field's name, and a null field's
/// member is the null value — never dropped and never defaulted.
pub proof fn lemma_struct_null_preservation(fields: Seq<crate::column::StructField>, row: int)
    requires
        forall|i: int|
            0 <= i < fields.len() ==> spec_doc_supported(col_kind(#[trigger] fields[i].data)),
    ensures
        spec_doc_fields(fields, row) is Ok,
        spec_doc_fields(fields, row)->Ok_0.len() == fields.len(),
        forall|i: int|
            0 <= i < fields.len() ==> (#[trigger] spec_doc_fields(fields, row)->Ok_0[i]).0
                == fields[i].name@ && (col_null_at(fields[i].data, row) ==> spec_doc_fields(fields, row)->Ok_0[i].1 == DocValueV::Null),
    decreases fields.len(),
{
    if fields.len() > 0 {
        let rest = fields.skip(1);
        assert forall|i: int|
            0 <= i < rest.len() implies spec_doc_supported(
            col_kind(#[trigger] rest[i].data),
        ) by {
            assert(rest[i] == fields[i + 1]);
        }
        lemma_struct_null_preservation(rest, row);
        let head = spec_doc_value(fields[0].data, row);
        assert(head is Value);
        let whole = spec_doc_fields(fields, row)->Ok_0;
        let tail_doc = spec_doc_fields(rest, row)->Ok_0;
        assert(whole == seq![(fields[0].name@, head->Value_0)] + tail_doc);
        assert forall|i: int|
            0 <= i < fields.len() implies (#[trigger] whole[i]).0 == fields[i].name@ && (
        col_null_at(fields[i].data, row) ==> whole[i].1 == DocValueV::Null) by {
            if i > 0 {
                assert(whole[i] == tail_doc[i - 1]);
                assert(rest[i - 1] == fields[i]);
            }
        }
    }
}

} // verus!

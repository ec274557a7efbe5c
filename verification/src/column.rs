//! The columnar source model: one enum variant per physical column
//! encoding the engine produces, holding already-validated plain values
//! (floats as bit patterns), with null slots explicit. Conversion reads a
//! column cell by row index with bounds and null checks, never by memory
//! reinterpretation.

use vstd::prelude::*;

verus! {

/// The physical type of a source column.
#[derive(Clone, Copy, PartialEq, Eq, Structural, Debug)]
pub enum PhysKind {
    Bool,
    Int8,
    Int16,
    Int32,
    Int64,
    UInt8,
    UInt16,
    UInt32,
    UInt64,
    Float16,
    Float32,
    Float64,
    Decimal128,
    Utf8,
    LargeUtf8,
    Binary,
    LargeBinary,
    Date32,
    Date64,
    Time32Second,
    Time32Millisecond,
    Time64Microsecond,
    Time64Nanosecond,
    TimestampSecond,
    TimestampMillisecond,
    TimestampMicrosecond,
    TimestampNanosecond,
    IntervalYearMonth,
    IntervalDayTime,
    IntervalMonthDayNano,
    ListBool,
    ListInt16,
    ListInt32,
    ListInt64,
    ListFloat32,
    ListFloat64,
    ListUtf8,
    Struct,
    Null,
}

/// The host's logical column types the conversion layer serves.
#[derive(Clone, Copy, PartialEq, Eq, Structural, Debug)]
pub enum PgType {
    Bool,
    Bytea,
    Int2,
    Int4,
    Int8,
    Float4,
    Float8,
    Numeric,
    Text,
    Varchar,
    Bpchar,
    Name,
    Date,
    Time,
    Timestamp,
    TimestampTz,
    Interval,
    Jsonb,
    Uuid,
    Void,
    BoolArray,
    TextArray,
    VarcharArray,
    BpcharArray,
    Int2Array,
    Int4Array,
    Int8Array,
    Float4Array,
    Float8Array,
    /// Any other host type: no conversion is declared for it.
    Other,
}

/// One field of a struct column: its name and its own column of values.
pub struct StructField {
    pub name: String,
    pub data: ColumnData,
}

/// A struct column: a null mask for the struct values themselves and one
/// child column per declared field, all of the same length.
pub struct StructColumn {
    pub nulls: Vec<bool>,
    pub fields: Vec<StructField>,
}

/// A validated columnar buffer: per physical encoding, the row values with
/// explicit null slots. Floats are carried as bit patterns.
pub enum ColumnData {
    Bool(Vec<Option<bool>>),
    Int8(Vec<Option<i8>>),
    Int16(Vec<Option<i16>>),
    Int32(Vec<Option<i32>>),
    Int64(Vec<Option<i64>>),
    UInt8(Vec<Option<u8>>),
    UInt16(Vec<Option<u16>>),
    UInt32(Vec<Option<u32>>),
    UInt64(Vec<Option<u64>>),
    Float16(Vec<Option<u16>>),
    Float32(Vec<Option<u32>>),
    Float64(Vec<Option<u64>>),
    Decimal128 { precision: u8, scale: u8, values: Vec<Option<i128>> },
    Utf8(Vec<Option<String>>),
    LargeUtf8(Vec<Option<String>>),
    Binary(Vec<Option<Vec<u8>>>),
    LargeBinary(Vec<Option<Vec<u8>>>),
    /// Days since 1970-01-01.
    Date32(Vec<Option<i32>>),
    /// Milliseconds since 1970-01-01.
    Date64(Vec<Option<i64>>),
    Time32Second(Vec<Option<i32>>),
    Time32Millisecond(Vec<Option<i32>>),
    Time64Microsecond(Vec<Option<i64>>),
    Time64Nanosecond(Vec<Option<i64>>),
    TimestampSecond { zone: Option<String>, values: Vec<Option<i64>> },
    TimestampMillisecond { zone: Option<String>, values: Vec<Option<i64>> },
    TimestampMicrosecond { zone: Option<String>, values: Vec<Option<i64>> },
    TimestampNanosecond { zone: Option<String>, values: Vec<Option<i64>> },
    /// Whole months.
    IntervalYearMonth(Vec<Option<i32>>),
    /// (days, milliseconds) pairs.
    IntervalDayTime(Vec<Option<(i32, i32)>>),
    /// (months, days, nanoseconds) triples.
    IntervalMonthDayNano(Vec<Option<(i32, i32, i64)>>),
    ListBool(Vec<Option<Vec<Option<bool>>>>),
    ListInt16(Vec<Option<Vec<Option<i16>>>>),
    ListInt32(Vec<Option<Vec<Option<i32>>>>),
    ListInt64(Vec<Option<Vec<Option<i64>>>>),
    ListFloat32(Vec<Option<Vec<Option<u32>>>>),
    ListFloat64(Vec<Option<Vec<Option<u64>>>>),
    ListUtf8(Vec<Option<Vec<Option<String>>>>),
    Struct(StructColumn),
    /// A column with no values at all, only the row count.
    Null(usize),
}

/// The physical type tag of a column.
pub open spec fn col_kind(col: ColumnData) -> PhysKind {
    match col {
        ColumnData::Bool(_) => PhysKind::Bool,
        ColumnData::Int8(_) => PhysKind::Int8,
        ColumnData::Int16(_) => PhysKind::Int16,
        ColumnData::Int32(_) => PhysKind::Int32,
        ColumnData::Int64(_) => PhysKind::Int64,
        ColumnData::UInt8(_) => PhysKind::UInt8,
        ColumnData::UInt16(_) => PhysKind::UInt16,
        ColumnData::UInt32(_) => PhysKind::UInt32,
        ColumnData::UInt64(_) => PhysKind::UInt64,
        ColumnData::Float16(_) => PhysKind::Float16,
        ColumnData::Float32(_) => PhysKind::Float32,
        ColumnData::Float64(_) => PhysKind::Float64,
        ColumnData::Decimal128 { .. } => PhysKind::Decimal128,
        ColumnData::Utf8(_) => PhysKind::Utf8,
        ColumnData::LargeUtf8(_) => PhysKind::LargeUtf8,
        ColumnData::Binary(_) => PhysKind::Binary,
        ColumnData::LargeBinary(_) => PhysKind::LargeBinary,
        ColumnData::Date32(_) => PhysKind::Date32,
        ColumnData::Date64(_) => PhysKind::Date64,
        ColumnData::Time32Second(_) => PhysKind::Time32Second,
        ColumnData::Time32Millisecond(_) => PhysKind::Time32Millisecond,
        ColumnData::Time64Microsecond(_) => PhysKind::Time64Microsecond,
        ColumnData::Time64Nanosecond(_) => PhysKind::Time64Nanosecond,
        ColumnData::TimestampSecond { .. } => PhysKind::TimestampSecond,
        ColumnData::TimestampMillisecond { .. } => PhysKind::TimestampMillisecond,
        ColumnData::TimestampMicrosecond { .. } => PhysKind::TimestampMicrosecond,
        ColumnData::TimestampNanosecond { .. } => PhysKind::TimestampNanosecond,
        ColumnData::IntervalYearMonth(_) => PhysKind::IntervalYearMonth,
        ColumnData::IntervalDayTime(_) => PhysKind::IntervalDayTime,
        ColumnData::IntervalMonthDayNano(_) => PhysKind::IntervalMonthDayNano,
        ColumnData::ListBool(_) => PhysKind::ListBool,
        ColumnData::ListInt16(_) => PhysKind::ListInt16,
        ColumnData::ListInt32(_) => PhysKind::ListInt32,
        ColumnData::ListInt64(_) => PhysKind::ListInt64,
        ColumnData::ListFloat32(_) => PhysKind::ListFloat32,
        ColumnData::ListFloat64(_) => PhysKind::ListFloat64,
        ColumnData::ListUtf8(_) => PhysKind::ListUtf8,
        ColumnData::Struct(_) => PhysKind::Struct,
        ColumnData::Null(_) => PhysKind::Null,
    }
}

/// The number of rows in a column.
pub open spec fn col_len(col: ColumnData) -> nat {
    match col {
        ColumnData::Bool(v) => v@.len(),
        ColumnData::Int8(v) => v@.len(),
        ColumnData::Int16(v) => v@.len(),
        ColumnData::Int32(v) => v@.len(),
        ColumnData::Int64(v) => v@.len(),
        ColumnData::UInt8(v) => v@.len(),
        ColumnData::UInt16(v) => v@.len(),
        ColumnData::UInt32(v) => v@.len(),
        ColumnData::UInt64(v) => v@.len(),
        ColumnData::Float16(v) => v@.len(),
        ColumnData::Float32(v) => v@.len(),
        ColumnData::Float64(v) => v@.len(),
        ColumnData::Decimal128 { values, .. } => values@.len(),
        ColumnData::Utf8(v) => v@.len(),
        ColumnData::LargeUtf8(v) => v@.len(),
        ColumnData::Binary(v) => v@.len(),
        ColumnData::LargeBinary(v) => v@.len(),
        ColumnData::Date32(v) => v@.len(),
        ColumnData::Date64(v) => v@.len(),
        ColumnData::Time32Second(v) => v@.len(),
        ColumnData::Time32Millisecond(v) => v@.len(),
        ColumnData::Time64Microsecond(v) => v@.len(),
        ColumnData::Time64Nanosecond(v) => v@.len(),
        ColumnData::TimestampSecond { values, .. } => values@.len(),
        ColumnData::TimestampMillisecond { values, .. } => values@.len(),
        ColumnData::TimestampMicrosecond { values, .. } => values@.len(),
        ColumnData::TimestampNanosecond { values, .. } => values@.len(),
        ColumnData::IntervalYearMonth(v) => v@.len(),
        ColumnData::IntervalDayTime(v) => v@.len(),
        ColumnData::IntervalMonthDayNano(v) => v@.len(),
        ColumnData::ListBool(v) => v@.len(),
        ColumnData::ListInt16(v) => v@.len(),
        ColumnData::ListInt32(v) => v@.len(),
        ColumnData::ListInt64(v) => v@.len(),
        ColumnData::ListFloat32(v) => v@.len(),
        ColumnData::ListFloat64(v) => v@.len(),
        ColumnData::ListUtf8(v) => v@.len(),
        ColumnData::Struct(s) => s.nulls@.len(),
        ColumnData::Null(n) => n as nat,
    }
}

/// Whether the cell at `row` is a null slot.
pub open spec fn col_null_at(col: ColumnData, row: int) -> bool {
    match col {
        ColumnData::Bool(v) => v@[row] is None,
        ColumnData::Int8(v) => v@[row] is None,
        ColumnData::Int16(v) => v@[row] is None,
        ColumnData::Int32(v) => v@[row] is None,
        ColumnData::Int64(v) => v@[row] is None,
        ColumnData::UInt8(v) => v@[row] is None,
        ColumnData::UInt16(v) => v@[row] is None,
        ColumnData::UInt32(v) => v@[row] is None,
        ColumnData::UInt64(v) => v@[row] is None,
        ColumnData::Float16(v) => v@[row] is None,
        ColumnData::Float32(v) => v@[row] is None,
        ColumnData::Float64(v) => v@[row] is None,
        ColumnData::Decimal128 { values, .. } => values@[row] is None,
        ColumnData::Utf8(v) => v@[row] is None,
        ColumnData::LargeUtf8(v) => v@[row] is None,
        ColumnData::Binary(v) => v@[row] is None,
        ColumnData::LargeBinary(v) => v@[row] is None,
        ColumnData::Date32(v) => v@[row] is None,
        ColumnData::Date64(v) => v@[row] is None,
        ColumnData::Time32Second(v) => v@[row] is None,
        ColumnData::Time32Millisecond(v) => v@[row] is None,
        ColumnData::Time64Microsecond(v) => v@[row] is None,
        ColumnData::Time64Nanosecond(v) => v@[row] is None,
        ColumnData::TimestampSecond { values, .. } => values@[row] is None,
        ColumnData::TimestampMillisecond { values, .. } => values@[row] is None,
        ColumnData::TimestampMicrosecond { values, .. } => values@[row] is None,
        ColumnData::TimestampNanosecond { values, .. } => values@[row] is None,
        ColumnData::IntervalYearMonth(v) => v@[row] is None,
        ColumnData::IntervalDayTime(v) => v@[row] is None,
        ColumnData::IntervalMonthDayNano(v) => v@[row] is None,
        ColumnData::ListBool(v) => v@[row] is None,
        ColumnData::ListInt16(v) => v@[row] is None,
        ColumnData::ListInt32(v) => v@[row] is None,
        ColumnData::ListInt64(v) => v@[row] is None,
        ColumnData::ListFloat32(v) => v@[row] is None,
        ColumnData::ListFloat64(v) => v@[row] is None,
        ColumnData::ListUtf8(v) => v@[row] is None,
        ColumnData::Struct(s) => s.nulls@[row],
        ColumnData::Null(_) => true,
    }
}

/// A well-formed struct column: every field column has exactly as many
/// rows as the struct's null mask.
pub open spec fn wf_struct(s: StructColumn) -> bool {
    forall|i: int|
        0 <= i < s.fields@.len() ==> col_len(#[trigger] s.fields@[i].data) == s.nulls@.len()
}

/// A well-formed column: a struct column's fields all have its length.
pub open spec fn wf_column(col: ColumnData) -> bool {
    match col {
        ColumnData::Struct(s) => wf_struct(s),
        _ => true,
    }
}

impl ColumnData {
    /// The physical type tag of this column.
    pub fn kind(&self) -> (r: PhysKind)
        ensures
            r == col_kind(*self),
    {
        match self {
            ColumnData::Bool(_) => PhysKind::Bool,
            ColumnData::Int8(_) => PhysKind::Int8,
            ColumnData::Int16(_) => PhysKind::Int16,
            ColumnData::Int32(_) => PhysKind::Int32,
            ColumnData::Int64(_) => PhysKind::Int64,
            ColumnData::UInt8(_) => PhysKind::UInt8,
            ColumnData::UInt16(_) => PhysKind::UInt16,
            ColumnData::UInt32(_) => PhysKind::UInt32,
            ColumnData::UInt64(_) => PhysKind::UInt64,
            ColumnData::Float16(_) => PhysKind::Float16,
            ColumnData::Float32(_) => PhysKind::Float32,
            ColumnData::Float64(_) => PhysKind::Float64,
            ColumnData::Decimal128 { .. } => PhysKind::Decimal128,
            ColumnData::Utf8(_) => PhysKind::Utf8,
            ColumnData::LargeUtf8(_) => PhysKind::LargeUtf8,
            ColumnData::Binary(_) => PhysKind::Binary,
            ColumnData::LargeBinary(_) => PhysKind::LargeBinary,
            ColumnData::Date32(_) => PhysKind::Date32,
            ColumnData::Date64(_) => PhysKind::Date64,
            ColumnData::Time32Second(_) => PhysKind::Time32Second,
            ColumnData::Time32Millisecond(_) => PhysKind::Time32Millisecond,
            ColumnData::Time64Microsecond(_) => PhysKind::Time64Microsecond,
            ColumnData::Time64Nanosecond(_) => PhysKind::Time64Nanosecond,
            ColumnData::TimestampSecond { .. } => PhysKind::TimestampSecond,
            ColumnData::TimestampMillisecond { .. } => PhysKind::TimestampMillisecond,
            ColumnData::TimestampMicrosecond { .. } => PhysKind::TimestampMicrosecond,
            ColumnData::TimestampNanosecond { .. } => PhysKind::TimestampNanosecond,
            ColumnData::IntervalYearMonth(_) => PhysKind::IntervalYearMonth,
            ColumnData::IntervalDayTime(_) => PhysKind::IntervalDayTime,
            ColumnData::IntervalMonthDayNano(_) => PhysKind::IntervalMonthDayNano,
            ColumnData::ListBool(_) => PhysKind::ListBool,
            ColumnData::ListInt16(_) => PhysKind::ListInt16,
            ColumnData::ListInt32(_) => PhysKind::ListInt32,
            ColumnData::ListInt64(_) => PhysKind::ListInt64,
            ColumnData::ListFloat32(_) => PhysKind::ListFloat32,
            ColumnData::ListFloat64(_) => PhysKind::ListFloat64,
            ColumnData::ListUtf8(_) => PhysKind::ListUtf8,
            ColumnData::Struct(_) => PhysKind::Struct,
            ColumnData::Null(_) => PhysKind::Null,
        }
    }

    /// The number of rows.
    pub fn len(&self) -> (r: usize)
        ensures
            r == col_len(*self),
    {
        match self {
            ColumnData::Bool(v) => v.len(),
            ColumnData::Int8(v) => v.len(),
            ColumnData::Int16(v) => v.len(),
            ColumnData::Int32(v) => v.len(),
            ColumnData::Int64(v) => v.len(),
            ColumnData::UInt8(v) => v.len(),
            ColumnData::UInt16(v) => v.len(),
            ColumnData::UInt32(v) => v.len(),
            ColumnData::UInt64(v) => v.len(),
            ColumnData::Float16(v) => v.len(),
            ColumnData::Float32(v) => v.len(),
            ColumnData::Float64(v) => v.len(),
            ColumnData::Decimal128 { values, .. } => values.len(),
            ColumnData::Utf8(v) => v.len(),
            ColumnData::LargeUtf8(v) => v.len(),
            ColumnData::Binary(v) => v.len(),
            ColumnData::LargeBinary(v) => v.len(),
            ColumnData::Date32(v) => v.len(),
            ColumnData::Date64(v) => v.len(),
            ColumnData::Time32Second(v) => v.len(),
            ColumnData::Time32Millisecond(v) => v.len(),
            ColumnData::Time64Microsecond(v) => v.len(),
            ColumnData::Time64Nanosecond(v) => v.len(),
            ColumnData::TimestampSecond { values, .. } => values.len(),
            ColumnData::TimestampMillisecond { values, .. } => values.len(),
            ColumnData::TimestampMicrosecond { values, .. } => values.len(),
            ColumnData::TimestampNanosecond { values, .. } => values.len(),
            ColumnData::IntervalYearMonth(v) => v.len(),
            ColumnData::IntervalDayTime(v) => v.len(),
            ColumnData::IntervalMonthDayNano(v) => v.len(),
            ColumnData::ListBool(v) => v.len(),
            ColumnData::ListInt16(v) => v.len(),
            ColumnData::ListInt32(v) => v.len(),
            ColumnData::ListInt64(v) => v.len(),
            ColumnData::ListFloat32(v) => v.len(),
            ColumnData::ListFloat64(v) => v.len(),
            ColumnData::ListUtf8(v) => v.len(),
            ColumnData::Struct(s) => s.nulls.len(),
            ColumnData::Null(n) => *n,
        }
    }

    /// Whether the cell at `row` is a null slot.
    pub fn is_null_at(&self, row: usize) -> (r: bool)
        requires
            row < col_len(*self),
        ensures
            r == col_null_at(*self, row as int),
    {
        match self {
            ColumnData::Bool(v) => v[row].is_none(),
            ColumnData::Int8(v) => v[row].is_none(),
            ColumnData::Int16(v) => v[row].is_none(),
            ColumnData::Int32(v) => v[row].is_none(),
            ColumnData::Int64(v) => v[row].is_none(),
            ColumnData::UInt8(v) => v[row].is_none(),
            ColumnData::UInt16(v) => v[row].is_none(),
            ColumnData::UInt32(v) => v[row].is_none(),
            ColumnData::UInt64(v) => v[row].is_none(),
            ColumnData::Float16(v) => v[row].is_none(),
            ColumnData::Float32(v) => v[row].is_none(),
            ColumnData::Float64(v) => v[row].is_none(),
            ColumnData::Decimal128 { values, .. } => values[row].is_none(),
            ColumnData::Utf8(v) => v[row].is_none(),
            ColumnData::LargeUtf8(v) => v[row].is_none(),
            ColumnData::Binary(v) => v[row].is_none(),
            ColumnData::LargeBinary(v) => v[row].is_none(),
            ColumnData::Date32(v) => v[row].is_none(),
            ColumnData::Date64(v) => v[row].is_none(),
            ColumnData::Time32Second(v) => v[row].is_none(),
            ColumnData::Time32Millisecond(v) => v[row].is_none(),
            ColumnData::Time64Microsecond(v) => v[row].is_none(),
            ColumnData::Time64Nanosecond(v) => v[row].is_none(),
            ColumnData::TimestampSecond { values, .. } => values[row].is_none(),
            ColumnData::TimestampMillisecond { values, .. } => values[row].is_none(),
            ColumnData::TimestampMicrosecond { values, .. } => values[row].is_none(),
            ColumnData::TimestampNanosecond { values, .. } => values[row].is_none(),
            ColumnData::IntervalYearMonth(v) => v[row].is_none(),
            ColumnData::IntervalDayTime(v) => v[row].is_none(),
            ColumnData::IntervalMonthDayNano(v) => v[row].is_none(),
            ColumnData::ListBool(v) => v[row].is_none(),
            ColumnData::ListInt16(v) => v[row].is_none(),
            ColumnData::ListInt32(v) => v[row].is_none(),
            ColumnData::ListInt64(v) => v[row].is_none(),
            ColumnData::ListFloat32(v) => v[row].is_none(),
            ColumnData::ListFloat64(v) => v[row].is_none(),
            ColumnData::ListUtf8(v) => v[row].is_none(),
            ColumnData::Struct(s) => s.nulls[row],
            ColumnData::Null(_) => true,
        }
    }
}

} // verus!

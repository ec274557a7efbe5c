//! The typed cell: the host-side value model a converted column cell is
//! delivered in, together with its ghost view and the conversion error
//! taxonomy.

use vstd::prelude::*;

verus! {

/// An arbitrary-precision decimal: `digits` scaled down by `scale` decimal
/// places.
#[derive(Clone, Copy, PartialEq, Eq, Structural, Debug)]
pub struct DecimalValue {
    /// The unscaled integer digits, sign included.
    pub digits: i128,
    /// How many of the trailing decimal digits are fractional.
    pub scale: u8,
}

/// An interval in the host's canonical (months, days, microseconds) triple.
#[derive(Clone, Copy, PartialEq, Eq, Structural, Debug)]
pub struct IntervalValue {
    pub months: i32,
    pub days: i32,
    pub micros: i64,
}

/// A field value of a semi-structured document.
#[derive(Clone, PartialEq, Debug)]
pub enum DocValue {
    /// A null member: a null source field is delivered as a null value,
    /// never dropped and never defaulted.
    Null,
    Bool(bool),
    I64(i64),
    U64(u64),
    /// A 16-bit float, carried as its bit pattern.
    F16Bits(u16),
    /// A 32-bit float, carried as its bit pattern.
    F32Bits(u32),
    /// A 64-bit float, carried as its bit pattern.
    F64Bits(u64),
    Numeric(DecimalValue),
    Text(String),
}

/// The ghost content of a document field value.
pub ghost enum DocValueV {
    Null,
    Bool(bool),
    I64(i64),
    U64(u64),
    F16Bits(u16),
    F32Bits(u32),
    F64Bits(u64),
    Numeric(DecimalValue),
    Text(Seq<char>),
}

impl View for DocValue {
    type V = DocValueV;

    open spec fn view(&self) -> DocValueV {
        match self {
            DocValue::Null => DocValueV::Null,
            DocValue::Bool(b) => DocValueV::Bool(*b),
            DocValue::I64(v) => DocValueV::I64(*v),
            DocValue::U64(v) => DocValueV::U64(*v),
            DocValue::F16Bits(v) => DocValueV::F16Bits(*v),
            DocValue::F32Bits(v) => DocValueV::F32Bits(*v),
            DocValue::F64Bits(v) => DocValueV::F64Bits(*v),
            DocValue::Numeric(d) => DocValueV::Numeric(*d),
            DocValue::Text(s) => DocValueV::Text(s@),
        }
    }
}

/// A semi-structured document: named fields in source schema order.
#[derive(Clone, PartialEq, Debug)]
pub struct Document {
    pub fields: Vec<(String, DocValue)>,
}

impl View for Document {
    type V = Seq<(Seq<char>, DocValueV)>;

    open spec fn view(&self) -> Seq<(Seq<char>, DocValueV)> {
        self.fields@.map_values(|p: (String, DocValue)| (p.0@, p.1@))
    }
}

/// A converted cell in the host's value model.
#[derive(Clone, PartialEq, Debug)]
pub enum Cell {
    Bool(bool),
    I16(i16),
    I32(i32),
    I64(i64),
    /// A 32-bit float, carried as its bit pattern.
    F32Bits(u32),
    /// A 64-bit float, carried as its bit pattern.
    F64Bits(u64),
    Numeric(DecimalValue),
    String(String),
    Bytea(Vec<u8>),
    /// Days since the host epoch (2000-01-01).
    Date(i32),
    /// Microseconds since midnight.
    Time(i64),
    /// Microseconds since the host epoch (2000-01-01 00:00:00).
    Timestamp(i64),
    /// Microseconds since the host epoch, with the source's zone identifier
    /// when one was declared; without one the value is zone-naive.
    TimestampTz(i64, Option<String>),
    Interval(IntervalValue),
    Json(Document),
    Uuid([u8; 16]),
    BoolArray(Vec<Option<bool>>),
    StringArray(Vec<Option<String>>),
    I16Array(Vec<Option<i16>>),
    I32Array(Vec<Option<i32>>),
    I64Array(Vec<Option<i64>>),
    /// 32-bit floats, carried as bit patterns.
    F32BitsArray(Vec<Option<u32>>),
    /// 64-bit floats, carried as bit patterns.
    F64BitsArray(Vec<Option<u64>>),
}

/// The ghost content of a converted cell.
pub ghost enum CellV {
    Bool(bool),
    I16(i16),
    I32(i32),
    I64(i64),
    F32Bits(u32),
    F64Bits(u64),
    Numeric(DecimalValue),
    Text(Seq<char>),
    Bytea(Seq<u8>),
    Date(i32),
    Time(i64),
    Timestamp(i64),
    TimestampTz(i64, Option<Seq<char>>),
    Interval(IntervalValue),
    Json(Seq<(Seq<char>, DocValueV)>),
    Uuid(Seq<u8>),
    BoolArray(Seq<Option<bool>>),
    TextArray(Seq<Option<Seq<char>>>),
    I16Array(Seq<Option<i16>>),
    I32Array(Seq<Option<i32>>),
    I64Array(Seq<Option<i64>>),
    F32BitsArray(Seq<Option<u32>>),
    F64BitsArray(Seq<Option<u64>>),
}

impl View for Cell {
    type V = CellV;

    open spec fn view(&self) -> CellV {
        match self {
            Cell::Bool(b) => CellV::Bool(*b),
            Cell::I16(v) => CellV::I16(*v),
            Cell::I32(v) => CellV::I32(*v),
            Cell::I64(v) => CellV::I64(*v),
            Cell::F32Bits(v) => CellV::F32Bits(*v),
            Cell::F64Bits(v) => CellV::F64Bits(*v),
            Cell::Numeric(d) => CellV::Numeric(*d),
            Cell::String(s) => CellV::Text(s@),
            Cell::Bytea(b) => CellV::Bytea(b@),
            Cell::Date(d) => CellV::Date(*d),
            Cell::Time(t) => CellV::Time(*t),
            Cell::Timestamp(t) => CellV::Timestamp(*t),
            Cell::TimestampTz(t, z) => CellV::TimestampTz(*t, z.deep_view()),
            Cell::Interval(iv) => CellV::Interval(*iv),
            Cell::Json(d) => CellV::Json(d@),
            Cell::Uuid(u) => CellV::Uuid(u@),
            Cell::BoolArray(v) => CellV::BoolArray(v@),
            Cell::StringArray(v) => CellV::TextArray(v.deep_view()),
            Cell::I16Array(v) => CellV::I16Array(v@),
            Cell::I32Array(v) => CellV::I32Array(v@),
            Cell::I64Array(v) => CellV::I64Array(v@),
            Cell::F32BitsArray(v) => CellV::F32BitsArray(v@),
            Cell::F64BitsArray(v) => CellV::F64BitsArray(v@),
        }
    }
}

} // verus!

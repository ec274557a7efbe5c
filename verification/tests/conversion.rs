use pg_analytics::cell::{Cell, DecimalValue, DocValue, IntervalValue};
use pg_analytics::column::{ColumnData, PgType, PhysKind, StructColumn, StructField};
use pg_analytics::convert::{convert_cell, ConversionError};
use pg_analytics::decimal::{format_decimal, parse_decimal};

#[test]
fn bool_cells_convert_and_preserve_null() {
    let col = ColumnData::Bool(vec![Some(true), None, Some(false)]);
    assert_eq!(convert_cell(&col, 0, PgType::Bool, "flag"), Ok(Some(Cell::Bool(true))));
    assert_eq!(convert_cell(&col, 1, PgType::Bool, "flag"), Ok(None));
    assert_eq!(convert_cell(&col, 2, PgType::Bool, "flag"), Ok(Some(Cell::Bool(false))));
}

#[test]
fn undeclared_pairs_are_hard_mismatch_errors() {
    // Requesting a conversion without a declared rule names the column, the
    // source type and the target type; it never coerces or defaults.
    let col = ColumnData::Utf8(vec![Some("7".to_string())]);
    match convert_cell(&col, 0, PgType::Int2, "amount") {
        Err(ConversionError::DataTypeMismatch { column, source, target }) => {
            assert_eq!(column, "amount");
            assert_eq!(source, PhysKind::Utf8);
            assert_eq!(target, PgType::Int2);
        }
        other => panic!("expected a mismatch error, got {:?}", other),
    }
    // Even a null cell of an undeclared pair is a mismatch, not a null.
    let nulls = ColumnData::Utf8(vec![None]);
    assert!(matches!(
        convert_cell(&nulls, 0, PgType::Int2, "amount"),
        Err(ConversionError::DataTypeMismatch { .. })
    ));
}

#[test]
fn integer_narrowing_follows_the_cast_chain() {
    // Values in range are preserved; wider values wrap through the declared
    // two's-complement chain, never silently saturate.
    let col = ColumnData::Int32(vec![Some(1234), Some(70000), Some(-1)]);
    assert_eq!(convert_cell(&col, 0, PgType::Int2, "c"), Ok(Some(Cell::I16(1234))));
    assert_eq!(convert_cell(&col, 1, PgType::Int2, "c"), Ok(Some(Cell::I16(4464))));
    assert_eq!(convert_cell(&col, 2, PgType::Int2, "c"), Ok(Some(Cell::I16(-1))));

    let unsigned = ColumnData::UInt64(vec![Some(65535), Some(9_223_372_036_854_775_808)]);
    assert_eq!(convert_cell(&unsigned, 0, PgType::Int2, "c"), Ok(Some(Cell::I16(-1))));
    assert_eq!(
        convert_cell(&unsigned, 1, PgType::Int8, "c"),
        Ok(Some(Cell::I64(i64::MIN)))
    );

    let widen = ColumnData::Int8(vec![Some(-7)]);
    assert_eq!(convert_cell(&widen, 0, PgType::Int4, "c"), Ok(Some(Cell::I32(-7))));
    assert_eq!(
        convert_cell(&widen, 0, PgType::Numeric, "c"),
        Ok(Some(Cell::Numeric(DecimalValue { digits: -7, scale: 0 })))
    );
}

#[test]
fn decimal_formats_to_canonical_string() {
    // The reference precision scenario: 12345.6700 with (precision 9,
    // scale 4) round-trips through the string path unchanged.
    let d = DecimalValue { digits: 123456700, scale: 4 };
    let text = format_decimal(d);
    assert_eq!(text, "12345.6700");
    assert_eq!(parse_decimal(&text), Some(d));
    assert_eq!(format_decimal(parse_decimal(&text).unwrap()), "12345.6700");

    assert_eq!(format_decimal(DecimalValue { digits: -5000, scale: 4 }), "-0.5000");
    assert_eq!(format_decimal(DecimalValue { digits: 0, scale: 0 }), "0");
    assert_eq!(parse_decimal("12345.6700"), Some(DecimalValue { digits: 123456700, scale: 4 }));
    assert_eq!(parse_decimal("not a number"), None);
    assert_eq!(parse_decimal("1."), None);
    assert_eq!(parse_decimal(""), None);
}

#[test]
fn decimal_cells_round_trip_through_text() {
    let col = ColumnData::Decimal128 { precision: 9, scale: 4, values: vec![Some(123456700), None] };
    assert_eq!(
        convert_cell(&col, 0, PgType::Numeric, "price"),
        Ok(Some(Cell::Numeric(DecimalValue { digits: 123456700, scale: 4 })))
    );
    assert_eq!(convert_cell(&col, 1, PgType::Numeric, "price"), Ok(None));
}

#[test]
fn decimal_to_integer_requires_an_exact_fit() {
    let col = ColumnData::Decimal128 {
        precision: 9,
        scale: 2,
        values: vec![Some(1200), Some(1250), Some(9_999_999_00)],
    };
    // 12.00 is exactly 12.
    assert_eq!(convert_cell(&col, 0, PgType::Int2, "q"), Ok(Some(Cell::I16(12))));
    // 12.50 has a fraction: refused, never truncated.
    assert!(matches!(
        convert_cell(&col, 1, PgType::Int2, "q"),
        Err(ConversionError::NumericConversion { .. })
    ));
    // 9999999.00 does not fit a 16-bit target.
    assert!(matches!(
        convert_cell(&col, 2, PgType::Int2, "q"),
        Err(ConversionError::NumericConversion { .. })
    ));
    // ... but fits a 32-bit target exactly.
    assert_eq!(convert_cell(&col, 2, PgType::Int4, "q"), Ok(Some(Cell::I32(9999999))));
}

#[test]
fn text_and_bytes_convert_without_reinterpretation() {
    let texts = ColumnData::Utf8(vec![Some("hello".to_string()), None]);
    assert_eq!(
        convert_cell(&texts, 0, PgType::Text, "t"),
        Ok(Some(Cell::String("hello".to_string())))
    );
    assert_eq!(convert_cell(&texts, 1, PgType::Varchar, "t"), Ok(None));
    assert_eq!(
        convert_cell(&texts, 0, PgType::Bytea, "t"),
        Ok(Some(Cell::Bytea(vec![104, 101, 108, 108, 111])))
    );

    let bytes = ColumnData::Binary(vec![
        Some(vec![104, 105]),
        Some(vec![200]),
        Some(vec![0xC3, 0xA9]),
    ]);
    assert_eq!(
        convert_cell(&bytes, 0, PgType::Text, "b"),
        Ok(Some(Cell::String("hi".to_string())))
    );
    // A lone continuation-less leading byte is not well-formed UTF-8.
    assert!(matches!(
        convert_cell(&bytes, 1, PgType::Text, "b"),
        Err(ConversionError::InvalidText { .. })
    ));
    // Well-formed multi-byte UTF-8 decodes to its text.
    assert_eq!(
        convert_cell(&bytes, 2, PgType::Text, "b"),
        Ok(Some(Cell::String("\u{e9}".to_string())))
    );
    assert_eq!(
        convert_cell(&bytes, 1, PgType::Bytea, "b"),
        Ok(Some(Cell::Bytea(vec![200])))
    );
}

#[test]
fn dates_shift_between_epochs() {
    // 10957 days after 1970-01-01 is the host epoch 2000-01-01.
    let col = ColumnData::Date32(vec![Some(10957), Some(0), None]);
    assert_eq!(convert_cell(&col, 0, PgType::Date, "d"), Ok(Some(Cell::Date(0))));
    assert_eq!(convert_cell(&col, 1, PgType::Date, "d"), Ok(Some(Cell::Date(-10957))));
    assert_eq!(convert_cell(&col, 2, PgType::Date, "d"), Ok(None));
    assert_eq!(
        convert_cell(&col, 0, PgType::Timestamp, "d"),
        Ok(Some(Cell::Timestamp(0)))
    );

    // One day after the engine epoch, in milliseconds.
    let col64 = ColumnData::Date64(vec![Some(86_400_000)]);
    assert_eq!(convert_cell(&col64, 0, PgType::Date, "d"), Ok(Some(Cell::Date(-10956))));
}

#[test]
fn date_paths_agree_at_the_extreme_boundary() {
    // A day count and its exact millisecond equivalent convert to the same
    // host timestamp under the same range guard, even where the unshifted
    // microsecond product alone would overflow.
    let day = 106_751_992i32;
    let millis = 9_223_372_108_800_000i64;
    let days32 = ColumnData::Date32(vec![Some(day)]);
    let millis64 = ColumnData::Date64(vec![Some(millis)]);
    assert_eq!(
        convert_cell(&days32, 0, PgType::Timestamp, "d"),
        Ok(Some(Cell::Timestamp(9_222_425_424_000_000_000)))
    );
    assert_eq!(
        convert_cell(&millis64, 0, PgType::Timestamp, "d"),
        Ok(Some(Cell::Timestamp(9_222_425_424_000_000_000)))
    );
    // Beyond the last representable day, both paths refuse alike.
    let days32 = ColumnData::Date32(vec![Some(106_762_949)]);
    let millis64 = ColumnData::Date64(vec![Some(9_224_318_793_600_000)]);
    assert!(matches!(
        convert_cell(&days32, 0, PgType::Timestamp, "d"),
        Err(ConversionError::OutOfRange { .. })
    ));
    assert!(matches!(
        convert_cell(&millis64, 0, PgType::Timestamp, "d"),
        Err(ConversionError::OutOfRange { .. })
    ));
}

#[test]
fn timestamps_scale_per_unit_and_truncate_nanoseconds() {
    let seconds = ColumnData::TimestampSecond { zone: None, values: vec![Some(946_684_800)] };
    assert_eq!(
        convert_cell(&seconds, 0, PgType::Timestamp, "ts"),
        Ok(Some(Cell::Timestamp(0)))
    );

    let nanos = ColumnData::TimestampNanosecond {
        zone: Some("UTC".to_string()),
        values: vec![Some(946_684_800_000_000_999)],
    };
    // The sub-microsecond digits are dropped, never rounded up.
    assert_eq!(
        convert_cell(&nanos, 0, PgType::Timestamp, "ts"),
        Ok(Some(Cell::Timestamp(0)))
    );
    assert_eq!(
        convert_cell(&nanos, 0, PgType::TimestampTz, "ts"),
        Ok(Some(Cell::TimestampTz(0, Some("UTC".to_string()))))
    );

    // An out-of-range second count is refused, not wrapped.
    let huge = ColumnData::TimestampSecond { zone: None, values: vec![Some(i64::MAX)] };
    assert!(matches!(
        convert_cell(&huge, 0, PgType::Timestamp, "ts"),
        Err(ConversionError::OutOfRange { .. })
    ));
}

#[test]
fn times_stay_within_one_day() {
    let col = ColumnData::Time32Second(vec![Some(3600), Some(90000)]);
    assert_eq!(
        convert_cell(&col, 0, PgType::Time, "t"),
        Ok(Some(Cell::Time(3_600_000_000)))
    );
    assert!(matches!(
        convert_cell(&col, 1, PgType::Time, "t"),
        Err(ConversionError::InvalidTime { .. })
    ));

    let nanos = ColumnData::Time64Nanosecond(vec![Some(1_500)]);
    assert_eq!(convert_cell(&nanos, 0, PgType::Time, "t"), Ok(Some(Cell::Time(1))));
}

#[test]
fn intervals_normalize_to_the_canonical_triple() {
    let ym = ColumnData::IntervalYearMonth(vec![Some(14)]);
    assert_eq!(
        convert_cell(&ym, 0, PgType::Interval, "i"),
        Ok(Some(Cell::Interval(IntervalValue { months: 14, days: 0, micros: 0 })))
    );

    let dt = ColumnData::IntervalDayTime(vec![Some((3, 1500))]);
    assert_eq!(
        convert_cell(&dt, 0, PgType::Interval, "i"),
        Ok(Some(Cell::Interval(IntervalValue { months: 0, days: 3, micros: 1_500_000 })))
    );

    // Nanoseconds truncate toward zero to whole microseconds.
    let mdn = ColumnData::IntervalMonthDayNano(vec![Some((1, 2, 1_999)), Some((0, 0, -1_999))]);
    assert_eq!(
        convert_cell(&mdn, 0, PgType::Interval, "i"),
        Ok(Some(Cell::Interval(IntervalValue { months: 1, days: 2, micros: 1 })))
    );
    assert_eq!(
        convert_cell(&mdn, 1, PgType::Interval, "i"),
        Ok(Some(Cell::Interval(IntervalValue { months: 0, days: 0, micros: -1 })))
    );
}

#[test]
fn lists_preserve_length_and_null_slots() {
    let col = ColumnData::ListInt32(vec![Some(vec![Some(1), None, Some(3)]), None]);
    assert_eq!(
        convert_cell(&col, 0, PgType::Int4Array, "xs"),
        Ok(Some(Cell::I32Array(vec![Some(1), None, Some(3)])))
    );
    assert_eq!(convert_cell(&col, 1, PgType::Int4Array, "xs"), Ok(None));

    let texts = ColumnData::ListUtf8(vec![Some(vec![Some("a".to_string()), None])]);
    assert_eq!(
        convert_cell(&texts, 0, PgType::TextArray, "xs"),
        Ok(Some(Cell::StringArray(vec![Some("a".to_string()), None])))
    );
}

#[test]
fn structs_become_documents_in_schema_order() {
    let col = ColumnData::Struct(StructColumn {
        nulls: vec![false, true],
        fields: vec![
            StructField { name: "id".to_string(), data: ColumnData::Int64(vec![Some(7), None]) },
            StructField {
                name: "label".to_string(),
                data: ColumnData::Utf8(vec![Some("x".to_string()), None]),
            },
            StructField { name: "skipped".to_string(), data: ColumnData::Int32(vec![None, None]) },
        ],
    });
    match convert_cell(&col, 0, PgType::Jsonb, "doc") {
        Ok(Some(Cell::Json(doc))) => {
            // A null field is delivered as a null member, never dropped and
            // never defaulted.
            assert_eq!(
                doc.fields,
                vec![
                    ("id".to_string(), DocValue::I64(7)),
                    ("label".to_string(), DocValue::Text("x".to_string())),
                    ("skipped".to_string(), DocValue::Null),
                ]
            );
        }
        other => panic!("expected a document, got {:?}", other),
    }
    // A null struct value is a null cell.
    assert_eq!(convert_cell(&col, 1, PgType::Jsonb, "doc"), Ok(None));
}

#[test]
fn struct_fields_of_unsupported_types_are_named() {
    let col = ColumnData::Struct(StructColumn {
        nulls: vec![false],
        fields: vec![StructField {
            name: "nested".to_string(),
            data: ColumnData::ListInt32(vec![Some(vec![Some(1)])]),
        }],
    });
    match convert_cell(&col, 0, PgType::Jsonb, "doc") {
        Err(ConversionError::UnsupportedStructField { column, field, kind }) => {
            assert_eq!(column, "doc");
            assert_eq!(field, "nested");
            assert_eq!(kind, PhysKind::ListInt32);
        }
        other => panic!("expected an unsupported-field error, got {:?}", other),
    }
}

#[test]
fn uuids_parse_from_their_text_form() {
    let col = ColumnData::Utf8(vec![
        Some("550e8400-e29b-41d4-a716-446655440000".to_string()),
        Some("not-a-uuid".to_string()),
    ]);
    match convert_cell(&col, 0, PgType::Uuid, "u") {
        Ok(Some(Cell::Uuid(bytes))) => {
            assert_eq!(
                bytes,
                [0x55, 0x0e, 0x84, 0x00, 0xe2, 0x9b, 0x41, 0xd4, 0xa7, 0x16, 0x44, 0x66, 0x55,
                    0x44, 0x00, 0x00]
            );
        }
        other => panic!("expected a uuid, got {:?}", other),
    }
    assert!(matches!(
        convert_cell(&col, 1, PgType::Uuid, "u"),
        Err(ConversionError::InvalidUuid { .. })
    ));
}

#[test]
fn float_bits_pass_through_unchanged() {
    let col = ColumnData::Float32(vec![Some(0x4048F5C3)]);
    assert_eq!(
        convert_cell(&col, 0, PgType::Float4, "f"),
        Ok(Some(Cell::F32Bits(0x4048F5C3)))
    );
    // No rule narrows or widens floats.
    assert!(matches!(
        convert_cell(&col, 0, PgType::Float8, "f"),
        Err(ConversionError::DataTypeMismatch { .. })
    ));
}

#[test]
fn void_targets_deliver_nothing() {
    let col = ColumnData::Null(2);
    assert_eq!(convert_cell(&col, 0, PgType::Void, "v"), Ok(None));
    assert_eq!(convert_cell(&col, 1, PgType::Void, "v"), Ok(None));
}

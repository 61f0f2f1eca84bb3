use connectorx::errors::ConnectorXError;
use connectorx::transports::oracle_arrowstream::{OracleArrowTransport, OracleArrowTransportError,
    OracleTypeSystem};
use connectorx::transports::postgres_arrow::{PostgresArrowTransport,
    PostgresArrowTransportError, PostgresTypeSystem};
use connectorx::typesystem::{ArrowTypeSystem, NativeKind, NativeValue};

#[test]
fn every_postgres_tag_routes_to_a_mapped_pair() {
    let tags = [
        PostgresTypeSystem::Float4,
        PostgresTypeSystem::Float8,
        PostgresTypeSystem::Numeric,
        PostgresTypeSystem::Int2,
        PostgresTypeSystem::Int4,
        PostgresTypeSystem::Int8,
        PostgresTypeSystem::Bool,
        PostgresTypeSystem::Text,
        PostgresTypeSystem::BpChar,
        PostgresTypeSystem::VarChar,
        PostgresTypeSystem::Name,
        PostgresTypeSystem::Enum,
        PostgresTypeSystem::Timestamp,
        PostgresTypeSystem::Date,
        PostgresTypeSystem::Time,
        PostgresTypeSystem::TimestampTz,
        PostgresTypeSystem::UUID,
        PostgresTypeSystem::Char,
        PostgresTypeSystem::ByteA,
        PostgresTypeSystem::JSON,
        PostgresTypeSystem::JSONB,
        PostgresTypeSystem::BoolArray,
        PostgresTypeSystem::VarcharArray,
        PostgresTypeSystem::TextArray,
        PostgresTypeSystem::Int2Array,
        PostgresTypeSystem::Int4Array,
        PostgresTypeSystem::Int8Array,
        PostgresTypeSystem::Float4Array,
        PostgresTypeSystem::Float8Array,
        PostgresTypeSystem::NumericArray,
    ];
    for tag in tags {
        let dst = PostgresArrowTransport::map_tag(tag);
        assert!(PostgresArrowTransport::policy(tag, dst).is_some());
    }
    assert_eq!(
        PostgresArrowTransport::map_tag(PostgresTypeSystem::Int8),
        ArrowTypeSystem::Int64
    );
    assert_eq!(
        PostgresArrowTransport::map_tag(PostgresTypeSystem::Text),
        ArrowTypeSystem::LargeUtf8
    );
}

#[test]
fn check_schema_accepts_the_routed_pairing_and_rejects_an_unmapped_pair() {
    let src = vec![PostgresTypeSystem::Int8, PostgresTypeSystem::Text];
    let dst = PostgresArrowTransport::map_schema(&src);
    assert_eq!(dst, vec![ArrowTypeSystem::Int64, ArrowTypeSystem::LargeUtf8]);
    assert!(PostgresArrowTransport::check_schema(&src, &dst).is_ok());

    let bad_dst = vec![ArrowTypeSystem::Int64, ArrowTypeSystem::Int64];
    let r = PostgresArrowTransport::check_schema(&src, &bad_dst);
    assert_eq!(
        r,
        Err(PostgresArrowTransportError::UnsupportedMapping(
            PostgresTypeSystem::Text,
            ArrowTypeSystem::Int64
        ))
    );
}

#[test]
fn identity_rows_pass_values_through_over_the_whole_range() {
    for v in [i16::MIN, -1, 0, 1, i16::MAX] {
        assert_eq!(
            PostgresArrowTransport::convert(
                PostgresTypeSystem::Int2,
                ArrowTypeSystem::Int16,
                NativeValue::Int16(v)
            ),
            Ok(NativeValue::Int16(v))
        );
    }
    for v in [f64::MIN, -0.0, 1.5, f64::MAX, f64::INFINITY] {
        assert_eq!(
            PostgresArrowTransport::convert(
                PostgresTypeSystem::Float8,
                ArrowTypeSystem::Float64,
                NativeValue::Float64(v.to_bits())
            ),
            Ok(NativeValue::Float64(v.to_bits()))
        );
    }
    assert_eq!(
        PostgresArrowTransport::convert(
            PostgresTypeSystem::ByteA,
            ArrowTypeSystem::LargeBinary,
            NativeValue::Bytes(vec![1, 2, 3])
        ),
        Ok(NativeValue::Bytes(vec![1, 2, 3]))
    );
}

#[test]
fn autocast_rows_retag_over_the_whole_range() {
    for t in [i64::MIN, -1, 0, 1, i64::MAX] {
        assert_eq!(
            PostgresArrowTransport::convert(
                PostgresTypeSystem::Timestamp,
                ArrowTypeSystem::Date64Micro,
                NativeValue::Timestamp(t)
            ),
            Ok(NativeValue::TimestampMicro(t))
        );
        assert_eq!(
            PostgresArrowTransport::convert(
                PostgresTypeSystem::Time,
                ArrowTypeSystem::Time64Micro,
                NativeValue::Time(t)
            ),
            Ok(NativeValue::TimeMicro(t))
        );
        assert_eq!(
            PostgresArrowTransport::convert(
                PostgresTypeSystem::TimestampTz,
                ArrowTypeSystem::DateTimeTzMicro,
                NativeValue::TimestampTz(t)
            ),
            Ok(NativeValue::TimestampTzMicro(t))
        );
    }
}

#[test]
fn fallible_decimal_conversion_succeeds_in_range() {
    let r = PostgresArrowTransport::convert(
        PostgresTypeSystem::Numeric,
        ArrowTypeSystem::Float64,
        NativeValue::Decimal(25, 1),
    );
    assert_eq!(r, Ok(NativeValue::Float64((2.5f64).to_bits())));
    let r = PostgresArrowTransport::convert(
        PostgresTypeSystem::Numeric,
        ArrowTypeSystem::Float64,
        NativeValue::Decimal(-314159, 5),
    );
    assert_eq!(r, Ok(NativeValue::Float64((-3.14159f64).to_bits())));
}

#[test]
fn fallible_decimal_conversion_rejects_an_unrepresentable_value() {
    let r = PostgresArrowTransport::convert(
        PostgresTypeSystem::Numeric,
        ArrowTypeSystem::Float64,
        NativeValue::Decimal(1, 40),
    );
    assert_eq!(
        r,
        Err(PostgresArrowTransportError::ConversionError(
            NativeValue::Decimal(1, 40)
        ))
    );
}

#[test]
fn decimal_array_conversion_maps_each_cell() {
    let r = PostgresArrowTransport::convert(
        PostgresTypeSystem::NumericArray,
        ArrowTypeSystem::Float64Array,
        NativeValue::DecimalArray(vec![Some((25, 1)), None, Some((5, 0))]),
    );
    assert_eq!(
        r,
        Ok(NativeValue::Float64Array(vec![
            Some((2.5f64).to_bits()),
            None,
            Some((5.0f64).to_bits())
        ]))
    );
}

#[test]
fn decimal_array_conversion_rejects_an_unrepresentable_cell() {
    let r = PostgresArrowTransport::convert(
        PostgresTypeSystem::NumericArray,
        ArrowTypeSystem::Float64Array,
        NativeValue::DecimalArray(vec![Some((1, 0)), Some((1, 40))]),
    );
    assert_eq!(
        r,
        Err(PostgresArrowTransportError::ConversionError(
            NativeValue::DecimalArray(vec![Some((1, 0)), Some((1, 40))])
        ))
    );
}

#[test]
fn uuid_conversion_yields_the_hyphenated_text() {
    let bits: u128 = 0x936da01f9abd4d9d80c702af85c822a8;
    let r = PostgresArrowTransport::convert(
        PostgresTypeSystem::UUID,
        ArrowTypeSystem::LargeUtf8,
        NativeValue::Uuid(bits),
    );
    let expected = uuid::Uuid::from_u128(bits).to_string();
    assert_eq!(expected, "936da01f-9abd-4d9d-80c7-02af85c822a8");
    assert_eq!(r, Ok(NativeValue::Text(expected)));
}

#[test]
fn json_conversion_yields_the_serialized_text() {
    let value: serde_json::Value = serde_json::from_str("{\"a\": 1}").unwrap();
    let text = value.to_string();
    let r = PostgresArrowTransport::convert(
        PostgresTypeSystem::JSON,
        ArrowTypeSystem::LargeUtf8,
        NativeValue::Json(text.clone()),
    );
    assert_eq!(r, Ok(NativeValue::Text(text)));
}

#[test]
fn convert_rejects_an_unmapped_pair_and_a_mismatched_value() {
    let r = PostgresArrowTransport::convert(
        PostgresTypeSystem::Float4,
        ArrowTypeSystem::Int64,
        NativeValue::Float32((1.0f32).to_bits()),
    );
    assert_eq!(
        r,
        Err(PostgresArrowTransportError::UnsupportedMapping(
            PostgresTypeSystem::Float4,
            ArrowTypeSystem::Int64
        ))
    );
    let r = PostgresArrowTransport::convert(
        PostgresTypeSystem::Int8,
        ArrowTypeSystem::Int64,
        NativeValue::Float64((1.0f64).to_bits()),
    );
    assert_eq!(
        r,
        Err(PostgresArrowTransportError::ConnectorX(
            ConnectorXError::TypeCheckFailed {
                expected: NativeKind::Int64,
                found: NativeKind::Float64,
            }
        ))
    );
}

#[test]
fn oracle_rows_pass_values_through() {
    assert_eq!(
        OracleArrowTransport::convert(
            OracleTypeSystem::NumInt,
            ArrowTypeSystem::Int64,
            NativeValue::Int64(i64::MIN)
        ),
        Ok(NativeValue::Int64(i64::MIN))
    );
    assert_eq!(
        OracleArrowTransport::convert(
            OracleTypeSystem::VarChar,
            ArrowTypeSystem::LargeUtf8,
            NativeValue::Text(String::from("ora"))
        ),
        Ok(NativeValue::Text(String::from("ora")))
    );
    assert_eq!(
        OracleArrowTransport::convert(
            OracleTypeSystem::Date,
            ArrowTypeSystem::Date64,
            NativeValue::Timestamp(86_400_000_000)
        ),
        Ok(NativeValue::Timestamp(86_400_000_000))
    );
}

#[test]
fn oracle_transport_rejects_unmapped_pairs_and_mismatches() {
    let src = vec![OracleTypeSystem::NumInt];
    let dst = vec![ArrowTypeSystem::Float64];
    assert_eq!(
        OracleArrowTransport::check_schema(&src, &dst),
        Err(OracleArrowTransportError::UnsupportedMapping(
            OracleTypeSystem::NumInt,
            ArrowTypeSystem::Float64
        ))
    );
    let r = OracleArrowTransport::convert(
        OracleTypeSystem::NumInt,
        ArrowTypeSystem::Int64,
        NativeValue::Text(String::from("not a number")),
    );
    assert_eq!(
        r,
        Err(OracleArrowTransportError::ConnectorX(
            ConnectorXError::TypeCheckFailed {
                expected: NativeKind::Int64,
                found: NativeKind::Text,
            }
        ))
    );
}

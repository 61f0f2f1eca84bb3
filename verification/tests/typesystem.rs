use connectorx::typesystem::{ArrowTypeSystem, NativeKind, NativeValue, TypeSystem};
use connectorx::transports::oracle_arrowstream::OracleTypeSystem;
use connectorx::transports::postgres_arrow::PostgresTypeSystem;

#[test]
fn matches_accepts_every_valid_binding() {
    assert!(ArrowTypeSystem::Boolean.matches(NativeKind::Bool));
    assert!(ArrowTypeSystem::Int16.matches(NativeKind::Int16));
    assert!(ArrowTypeSystem::Int32.matches(NativeKind::Int32));
    assert!(ArrowTypeSystem::Int64.matches(NativeKind::Int64));
    assert!(ArrowTypeSystem::Float32.matches(NativeKind::Float32));
    assert!(ArrowTypeSystem::Float64.matches(NativeKind::Float64));
    assert!(ArrowTypeSystem::LargeUtf8.matches(NativeKind::Text));
    assert!(ArrowTypeSystem::LargeBinary.matches(NativeKind::Bytes));
    assert!(ArrowTypeSystem::Date32.matches(NativeKind::Date));
    assert!(ArrowTypeSystem::Date64.matches(NativeKind::Timestamp));
    assert!(ArrowTypeSystem::Date64Micro.matches(NativeKind::TimestampMicro));
    assert!(ArrowTypeSystem::Time64Micro.matches(NativeKind::TimeMicro));
    assert!(ArrowTypeSystem::DateTimeTz.matches(NativeKind::TimestampTz));
    assert!(ArrowTypeSystem::DateTimeTzMicro.matches(NativeKind::TimestampTzMicro));
    assert!(ArrowTypeSystem::BoolArray.matches(NativeKind::BoolArray));
    assert!(ArrowTypeSystem::Utf8Array.matches(NativeKind::TextArray));
    assert!(ArrowTypeSystem::Int16Array.matches(NativeKind::Int16Array));
    assert!(ArrowTypeSystem::Int32Array.matches(NativeKind::Int32Array));
    assert!(ArrowTypeSystem::Int64Array.matches(NativeKind::Int64Array));
    assert!(ArrowTypeSystem::Float32Array.matches(NativeKind::Float32Array));
    assert!(ArrowTypeSystem::Float64Array.matches(NativeKind::Float64Array));
    assert!(PostgresTypeSystem::Numeric.matches(NativeKind::Decimal));
    assert!(PostgresTypeSystem::UUID.matches(NativeKind::Uuid));
    assert!(PostgresTypeSystem::JSON.matches(NativeKind::Json));
    assert!(PostgresTypeSystem::NumericArray.matches(NativeKind::DecimalArray));
    assert!(OracleTypeSystem::NumFloat.matches(NativeKind::Float64));
    assert!(OracleTypeSystem::Date.matches(NativeKind::Timestamp));
}

#[test]
fn matches_rejects_every_mismatch() {
    assert!(!ArrowTypeSystem::Int64.matches(NativeKind::Float64));
    assert!(!ArrowTypeSystem::Int64.matches(NativeKind::Text));
    assert!(!ArrowTypeSystem::Float64.matches(NativeKind::Float32));
    assert!(!ArrowTypeSystem::LargeUtf8.matches(NativeKind::Bytes));
    assert!(!ArrowTypeSystem::Date64.matches(NativeKind::TimestampMicro));
    assert!(!PostgresTypeSystem::Int2.matches(NativeKind::Int32));
    assert!(!PostgresTypeSystem::Numeric.matches(NativeKind::Float64));
    assert!(!OracleTypeSystem::NumInt.matches(NativeKind::Float64));
}

#[test]
fn runtime_kind_reports_the_representation() {
    assert_eq!(NativeValue::Bool(true).runtime_kind(), NativeKind::Bool);
    assert_eq!(NativeValue::Int64(-7).runtime_kind(), NativeKind::Int64);
    assert_eq!(
        NativeValue::Float64((1.5f64).to_bits()).runtime_kind(),
        NativeKind::Float64
    );
    assert_eq!(
        NativeValue::Decimal(314, 2).runtime_kind(),
        NativeKind::Decimal
    );
    assert_eq!(
        NativeValue::Text(String::from("abc")).runtime_kind(),
        NativeKind::Text
    );
    assert_eq!(
        NativeValue::DecimalArray(vec![None, Some((1, 0))]).runtime_kind(),
        NativeKind::DecimalArray
    );
}

#[test]
fn resolve_native_is_total_over_the_tags() {
    let arrow_tags = [
        ArrowTypeSystem::Boolean,
        ArrowTypeSystem::Int16,
        ArrowTypeSystem::Int32,
        ArrowTypeSystem::Int64,
        ArrowTypeSystem::Float32,
        ArrowTypeSystem::Float64,
        ArrowTypeSystem::LargeUtf8,
        ArrowTypeSystem::LargeBinary,
        ArrowTypeSystem::Date32,
        ArrowTypeSystem::Date64,
        ArrowTypeSystem::Date64Micro,
        ArrowTypeSystem::Time64Micro,
        ArrowTypeSystem::DateTimeTz,
        ArrowTypeSystem::DateTimeTzMicro,
        ArrowTypeSystem::BoolArray,
        ArrowTypeSystem::Utf8Array,
        ArrowTypeSystem::Int16Array,
        ArrowTypeSystem::Int32Array,
        ArrowTypeSystem::Int64Array,
        ArrowTypeSystem::Float32Array,
        ArrowTypeSystem::Float64Array,
    ];
    for tag in arrow_tags {
        let kind = tag.resolve_native();
        assert!(tag.matches(kind));
    }
}

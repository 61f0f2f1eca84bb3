//! Type tags, native value representations, and the checked binding
//! between them.
//!
//! Every type system of the engine is a closed enumeration of tags, and each
//! tag binds to exactly one native representation, fixed at compile time.
//! `matches` is the sole runtime safety net: it is checked once per appended
//! value, because a source may present any native representation per cell.

use vstd::prelude::*;
use crate::errors::ConnectorXError;

verus! {

/// Discriminant of a native representation: the one datum a [`NativeValue`]
/// variant carries, without its payload.
#[derive(Clone, Copy, Debug, PartialEq, Eq, Structural)]
pub enum NativeKind {
    Bool,
    Int16,
    Int32,
    Int64,
    Float32,
    Float64,
    Decimal,
    Text,
    Bytes,
    Date,
    Timestamp,
    TimestampMicro,
    Time,
    TimeMicro,
    TimestampTz,
    TimestampTzMicro,
    Uuid,
    Json,
    BoolArray,
    TextArray,
    Int16Array,
    Int32Array,
    Int64Array,
    Float32Array,
    Float64Array,
    DecimalArray,
}

/// One cell's value in its native representation.
///
/// The engine moves values; it never computes with them, so each variant
/// carries a plain representation:
/// - `Float32` / `Float64` hold IEEE 754 bit patterns,
/// - `Decimal` holds a scaled integer (mantissa, scale),
/// - `Date` holds a day count, the time-like variants hold microsecond
///   counts (`Timestamp` naive, `TimestampTz` UTC; the `...Micro` variants
///   are the micro-precision wrappers the destination distinguishes),
/// - `Uuid` holds the 128 identifier bits,
/// - `Json` holds the document's serialized text,
/// - the `...Array` variants hold one whole nullable array cell.
#[derive(Clone, Debug, PartialEq)]
pub enum NativeValue {
    Bool(bool),
    Int16(i16),
    Int32(i32),
    Int64(i64),
    Float32(u32),
    Float64(u64),
    Decimal(i128, u32),
    Text(String),
    Bytes(Vec<u8>),
    Date(i32),
    Timestamp(i64),
    TimestampMicro(i64),
    Time(i64),
    TimeMicro(i64),
    TimestampTz(i64),
    TimestampTzMicro(i64),
    Uuid(u128),
    Json(String),
    BoolArray(Vec<Option<bool>>),
    TextArray(Vec<Option<String>>),
    Int16Array(Vec<Option<i16>>),
    Int32Array(Vec<Option<i32>>),
    Int64Array(Vec<Option<i64>>),
    Float32Array(Vec<Option<u32>>),
    Float64Array(Vec<Option<u64>>),
    DecimalArray(Vec<Option<(i128, u32)>>),
}

impl NativeValue {
    /// The representation this value is an instance of.
    pub open spec fn kind(&self) -> NativeKind {
        match self {
            NativeValue::Bool(_) => NativeKind::Bool,
            NativeValue::Int16(_) => NativeKind::Int16,
            NativeValue::Int32(_) => NativeKind::Int32,
            NativeValue::Int64(_) => NativeKind::Int64,
            NativeValue::Float32(_) => NativeKind::Float32,
            NativeValue::Float64(_) => NativeKind::Float64,
            NativeValue::Decimal(_, _) => NativeKind::Decimal,
            NativeValue::Text(_) => NativeKind::Text,
            NativeValue::Bytes(_) => NativeKind::Bytes,
            NativeValue::Date(_) => NativeKind::Date,
            NativeValue::Timestamp(_) => NativeKind::Timestamp,
            NativeValue::TimestampMicro(_) => NativeKind::TimestampMicro,
            NativeValue::Time(_) => NativeKind::Time,
            NativeValue::TimeMicro(_) => NativeKind::TimeMicro,
            NativeValue::TimestampTz(_) => NativeKind::TimestampTz,
            NativeValue::TimestampTzMicro(_) => NativeKind::TimestampTzMicro,
            NativeValue::Uuid(_) => NativeKind::Uuid,
            NativeValue::Json(_) => NativeKind::Json,
            NativeValue::BoolArray(_) => NativeKind::BoolArray,
            NativeValue::TextArray(_) => NativeKind::TextArray,
            NativeValue::Int16Array(_) => NativeKind::Int16Array,
            NativeValue::Int32Array(_) => NativeKind::Int32Array,
            NativeValue::Int64Array(_) => NativeKind::Int64Array,
            NativeValue::Float32Array(_) => NativeKind::Float32Array,
            NativeValue::Float64Array(_) => NativeKind::Float64Array,
            NativeValue::DecimalArray(_) => NativeKind::DecimalArray,
        }
    }

    /// Runtime twin of [`Self::kind`].
    pub fn runtime_kind(&self) -> (k: NativeKind)
        ensures
            k == self.kind(),
    {
        match self {
            NativeValue::Bool(_) => NativeKind::Bool,
            NativeValue::Int16(_) => NativeKind::Int16,
            NativeValue::Int32(_) => NativeKind::Int32,
            NativeValue::Int64(_) => NativeKind::Int64,
            NativeValue::Float32(_) => NativeKind::Float32,
            NativeValue::Float64(_) => NativeKind::Float64,
            NativeValue::Decimal(_, _) => NativeKind::Decimal,
            NativeValue::Text(_) => NativeKind::Text,
            NativeValue::Bytes(_) => NativeKind::Bytes,
            NativeValue::Date(_) => NativeKind::Date,
            NativeValue::Timestamp(_) => NativeKind::Timestamp,
            NativeValue::TimestampMicro(_) => NativeKind::TimestampMicro,
            NativeValue::Time(_) => NativeKind::Time,
            NativeValue::TimeMicro(_) => NativeKind::TimeMicro,
            NativeValue::TimestampTz(_) => NativeKind::TimestampTz,
            NativeValue::TimestampTzMicro(_) => NativeKind::TimestampTzMicro,
            NativeValue::Uuid(_) => NativeKind::Uuid,
            NativeValue::Json(_) => NativeKind::Json,
            NativeValue::BoolArray(_) => NativeKind::BoolArray,
            NativeValue::TextArray(_) => NativeKind::TextArray,
            NativeValue::Int16Array(_) => NativeKind::Int16Array,
            NativeValue::Int32Array(_) => NativeKind::Int32Array,
            NativeValue::Int64Array(_) => NativeKind::Int64Array,
            NativeValue::Float32Array(_) => NativeKind::Float32Array,
            NativeValue::Float64Array(_) => NativeKind::Float64Array,
            NativeValue::DecimalArray(_) => NativeKind::DecimalArray,
        }
    }
}

/// A closed set of type tags for one side of a transfer, each bound to
/// exactly one native representation.
pub trait TypeSystem: Copy + Sized {
    /// The one native representation this tag binds to.
    spec fn native(self) -> NativeKind;

    /// Resolve the tag's native binding at runtime: one branch on the tag
    /// discriminant, exhaustive over the whole enumeration.
    fn resolve_native(self) -> (k: NativeKind)
        ensures
            k == self.native();

    /// A (tag, requested representation) pair matches exactly when the
    /// representation is the tag's one native binding. Never panics.
    fn matches(self, kind: NativeKind) -> (r: bool)
        ensures
            r == (kind == self.native());
}

/// The runtime type check performed once per appended value: accepts the
/// value exactly when its representation is the tag's native binding, and
/// reports both representations on disagreement.
pub fn check_value<T: TypeSystem>(tag: T, value: &NativeValue) -> (r: Result<
    (),
    ConnectorXError,
>)
    ensures
        r is Ok <==> value.kind() == tag.native(),
        r matches Err(e) ==> e == (ConnectorXError::TypeCheckFailed {
            expected: tag.native(),
            found: value.kind(),
        }),
{
    let found = value.runtime_kind();
    if tag.matches(found) {
        Ok(())
    } else {
        Err(ConnectorXError::TypeCheckFailed { expected: tag.resolve_native(), found })
    }
}

/// Type tags of the columnar destination: one tag per physical column type
/// a batch can hold.
#[derive(Clone, Copy, Debug, PartialEq, Eq, Structural)]
pub enum ArrowTypeSystem {
    Boolean,
    Int16,
    Int32,
    Int64,
    Float32,
    Float64,
    LargeUtf8,
    LargeBinary,
    Date32,
    Date64,
    Date64Micro,
    Time64Micro,
    DateTimeTz,
    DateTimeTzMicro,
    BoolArray,
    Utf8Array,
    Int16Array,
    Int32Array,
    Int64Array,
    Float32Array,
    Float64Array,
}

impl TypeSystem for ArrowTypeSystem {
    open spec fn native(self) -> NativeKind {
        match self {
            ArrowTypeSystem::Boolean => NativeKind::Bool,
            ArrowTypeSystem::Int16 => NativeKind::Int16,
            ArrowTypeSystem::Int32 => NativeKind::Int32,
            ArrowTypeSystem::Int64 => NativeKind::Int64,
            ArrowTypeSystem::Float32 => NativeKind::Float32,
            ArrowTypeSystem::Float64 => NativeKind::Float64,
            ArrowTypeSystem::LargeUtf8 => NativeKind::Text,
            ArrowTypeSystem::LargeBinary => NativeKind::Bytes,
            ArrowTypeSystem::Date32 => NativeKind::Date,
            ArrowTypeSystem::Date64 => NativeKind::Timestamp,
            ArrowTypeSystem::Date64Micro => NativeKind::TimestampMicro,
            ArrowTypeSystem::Time64Micro => NativeKind::TimeMicro,
            ArrowTypeSystem::DateTimeTz => NativeKind::TimestampTz,
            ArrowTypeSystem::DateTimeTzMicro => NativeKind::TimestampTzMicro,
            ArrowTypeSystem::BoolArray => NativeKind::BoolArray,
            ArrowTypeSystem::Utf8Array => NativeKind::TextArray,
            ArrowTypeSystem::Int16Array => NativeKind::Int16Array,
            ArrowTypeSystem::Int32Array => NativeKind::Int32Array,
            ArrowTypeSystem::Int64Array => NativeKind::Int64Array,
            ArrowTypeSystem::Float32Array => NativeKind::Float32Array,
            ArrowTypeSystem::Float64Array => NativeKind::Float64Array,
        }
    }

    fn resolve_native(self) -> (k: NativeKind) {
        match self {
            ArrowTypeSystem::Boolean => NativeKind::Bool,
            ArrowTypeSystem::Int16 => NativeKind::Int16,
            ArrowTypeSystem::Int32 => NativeKind::Int32,
            ArrowTypeSystem::Int64 => NativeKind::Int64,
            ArrowTypeSystem::Float32 => NativeKind::Float32,
            ArrowTypeSystem::Float64 => NativeKind::Float64,
            ArrowTypeSystem::LargeUtf8 => NativeKind::Text,
            ArrowTypeSystem::LargeBinary => NativeKind::Bytes,
            ArrowTypeSystem::Date32 => NativeKind::Date,
            ArrowTypeSystem::Date64 => NativeKind::Timestamp,
            ArrowTypeSystem::Date64Micro => NativeKind::TimestampMicro,
            ArrowTypeSystem::Time64Micro => NativeKind::TimeMicro,
            ArrowTypeSystem::DateTimeTz => NativeKind::TimestampTz,
            ArrowTypeSystem::DateTimeTzMicro => NativeKind::TimestampTzMicro,
            ArrowTypeSystem::BoolArray => NativeKind::BoolArray,
            ArrowTypeSystem::Utf8Array => NativeKind::TextArray,
            ArrowTypeSystem::Int16Array => NativeKind::Int16Array,
            ArrowTypeSystem::Int32Array => NativeKind::Int32Array,
            ArrowTypeSystem::Int64Array => NativeKind::Int64Array,
            ArrowTypeSystem::Float32Array => NativeKind::Float32Array,
            ArrowTypeSystem::Float64Array => NativeKind::Float64Array,
        }
    }

    fn matches(self, kind: NativeKind) -> (r: bool) {
        kind == self.resolve_native()
    }
}

} // verus!

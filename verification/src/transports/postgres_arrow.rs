//! Transport from a Postgres source to the columnar destination: one
//! declarative table, one row per (source tag, destination tag) pair, each
//! row carrying its conversion policy.

use vstd::prelude::*;
use crate::errors::{Arrow2DestinationError, ConnectorXError};
use crate::transports::ConversionPolicy;
use crate::typesystem::{check_value, ArrowTypeSystem, NativeKind, NativeValue, TypeSystem};

verus! {

/// Type tags of the Postgres source.
#[derive(Clone, Copy, Debug, PartialEq, Eq, Structural)]
pub enum PostgresTypeSystem {
    Float4,
    Float8,
    Numeric,
    Int2,
    Int4,
    Int8,
    Bool,
    Text,
    BpChar,
    VarChar,
    Name,
    Enum,
    Timestamp,
    Date,
    Time,
    TimestampTz,
    UUID,
    Char,
    ByteA,
    JSON,
    JSONB,
    BoolArray,
    VarcharArray,
    TextArray,
    Int2Array,
    Int4Array,
    Int8Array,
    Float4Array,
    Float8Array,
    NumericArray,
}

impl TypeSystem for PostgresTypeSystem {
    open spec fn native(self) -> NativeKind {
        match self {
            PostgresTypeSystem::Float4 => NativeKind::Float32,
            PostgresTypeSystem::Float8 => NativeKind::Float64,
            PostgresTypeSystem::Numeric => NativeKind::Decimal,
            PostgresTypeSystem::Int2 => NativeKind::Int16,
            PostgresTypeSystem::Int4 => NativeKind::Int32,
            PostgresTypeSystem::Int8 => NativeKind::Int64,
            PostgresTypeSystem::Bool => NativeKind::Bool,
            PostgresTypeSystem::Text => NativeKind::Text,
            PostgresTypeSystem::BpChar => NativeKind::Text,
            PostgresTypeSystem::VarChar => NativeKind::Text,
            PostgresTypeSystem::Name => NativeKind::Text,
            PostgresTypeSystem::Enum => NativeKind::Text,
            PostgresTypeSystem::Timestamp => NativeKind::Timestamp,
            PostgresTypeSystem::Date => NativeKind::Date,
            PostgresTypeSystem::Time => NativeKind::Time,
            PostgresTypeSystem::TimestampTz => NativeKind::TimestampTz,
            PostgresTypeSystem::UUID => NativeKind::Uuid,
            PostgresTypeSystem::Char => NativeKind::Text,
            PostgresTypeSystem::ByteA => NativeKind::Bytes,
            PostgresTypeSystem::JSON => NativeKind::Json,
            PostgresTypeSystem::JSONB => NativeKind::Json,
            PostgresTypeSystem::BoolArray => NativeKind::BoolArray,
            PostgresTypeSystem::VarcharArray => NativeKind::TextArray,
            PostgresTypeSystem::TextArray => NativeKind::TextArray,
            PostgresTypeSystem::Int2Array => NativeKind::Int16Array,
            PostgresTypeSystem::Int4Array => NativeKind::Int32Array,
            PostgresTypeSystem::Int8Array => NativeKind::Int64Array,
            PostgresTypeSystem::Float4Array => NativeKind::Float32Array,
            PostgresTypeSystem::Float8Array => NativeKind::Float64Array,
            PostgresTypeSystem::NumericArray => NativeKind::DecimalArray,
        }
    }

    fn resolve_native(self) -> (k: NativeKind) {
        match self {
            PostgresTypeSystem::Float4 => NativeKind::Float32,
            PostgresTypeSystem::Float8 => NativeKind::Float64,
            PostgresTypeSystem::Numeric => NativeKind::Decimal,
            PostgresTypeSystem::Int2 => NativeKind::Int16,
            PostgresTypeSystem::Int4 => NativeKind::Int32,
            PostgresTypeSystem::Int8 => NativeKind::Int64,
            PostgresTypeSystem::Bool => NativeKind::Bool,
            PostgresTypeSystem::Text => NativeKind::Text,
            PostgresTypeSystem::BpChar => NativeKind::Text,
            PostgresTypeSystem::VarChar => NativeKind::Text,
            PostgresTypeSystem::Name => NativeKind::Text,
            PostgresTypeSystem::Enum => NativeKind::Text,
            PostgresTypeSystem::Timestamp => NativeKind::Timestamp,
            PostgresTypeSystem::Date => NativeKind::Date,
            PostgresTypeSystem::Time => NativeKind::Time,
            PostgresTypeSystem::TimestampTz => NativeKind::TimestampTz,
            PostgresTypeSystem::UUID => NativeKind::Uuid,
            PostgresTypeSystem::Char => NativeKind::Text,
            PostgresTypeSystem::ByteA => NativeKind::Bytes,
            PostgresTypeSystem::JSON => NativeKind::Json,
            PostgresTypeSystem::JSONB => NativeKind::Json,
            PostgresTypeSystem::BoolArray => NativeKind::BoolArray,
            PostgresTypeSystem::VarcharArray => NativeKind::TextArray,
            PostgresTypeSystem::TextArray => NativeKind::TextArray,
            PostgresTypeSystem::Int2Array => NativeKind::Int16Array,
            PostgresTypeSystem::Int4Array => NativeKind::Int32Array,
            PostgresTypeSystem::Int8Array => NativeKind::Int64Array,
            PostgresTypeSystem::Float4Array => NativeKind::Float32Array,
            PostgresTypeSystem::Float8Array => NativeKind::Float64Array,
            PostgresTypeSystem::NumericArray => NativeKind::DecimalArray,
        }
    }

    fn matches(self, kind: NativeKind) -> (r: bool) {
        kind == self.resolve_native()
    }
}

/// Errors of the Postgres-to-columnar transport.
#[derive(Clone, Debug, PartialEq)]
pub enum PostgresArrowTransportError {
    /// An error of the destination, unchanged.
    Destination(Arrow2DestinationError),
    /// A shared engine error, unchanged.
    ConnectorX(ConnectorXError),
    /// No conversion policy is declared for this tag pair; raised at
    /// schema-allocation time, before any row is read.
    UnsupportedMapping(PostgresTypeSystem, ArrowTypeSystem),
    /// A fallible conversion rejected this offending value.
    ConversionError(NativeValue),
}

/// What `rust_decimal`'s float conversion yields, as IEEE 754 bits, for the
/// decimal with the given mantissa and scale; `None` when no decimal with
/// those parts exists. A pure function of its arguments.
pub uninterp spec fn float_bits_of_decimal(mantissa: i128, scale: u32) -> Option<u64>;

/// Relies on rust_decimal's `Decimal::try_from_i128_with_scale` — which
/// fails exactly on a scale above the crate's maximum or a mantissa beyond
/// 96 bits — and on `num_traits::ToPrimitive::to_f64`, whose result depends
/// on mantissa and scale alone.
#[verifier::external_body]
fn decimal_to_float_bits(mantissa: i128, scale: u32) -> (r: Option<u64>)
    ensures
        r == float_bits_of_decimal(mantissa, scale),
{
    rust_decimal::Decimal::try_from_i128_with_scale(mantissa, scale).ok().and_then(
        |d| num_traits::ToPrimitive::to_f64(&d),
    ).map(|x| x.to_bits())
}

/// The lowercase hyphenated text of the UUID with the given bits. A pure
/// function of its argument.
pub uninterp spec fn uuid_text_of(bits: u128) -> Seq<char>;

/// Relies on uuid's `Display` implementation: the lowercase hyphenated
/// form, groups of eight, four, four, four and twelve hexadecimal digits —
/// 36 characters in all — a function of the 128 identifier bits alone.
#[verifier::external_body]
fn uuid_to_string(bits: u128) -> (r: String)
    ensures
        r@ == uuid_text_of(bits),
        r@.len() == 36,
{
    uuid::Uuid::from_u128(bits).to_string()
}

/// One nullable decimal array cell as IEEE 754 bits.
pub open spec fn dec_opt_bits(cell: Option<(i128, u32)>) -> Option<u64> {
    match cell {
        Some(p) => float_bits_of_decimal(p.0, p.1),
        None => None,
    }
}

/// Converts Postgres source values to columnar destination values,
/// following the declarative tag-pair table.
pub struct PostgresArrowTransport;

impl PostgresArrowTransport {
    /// The declarative table: the one conversion policy of each supported
    /// (source tag, destination tag) pair, `None` for every other pair.
    pub open spec fn policy_of(src: PostgresTypeSystem, dst: ArrowTypeSystem) -> Option<
        ConversionPolicy,
    > {
        match (src, dst) {
            (PostgresTypeSystem::Float4, ArrowTypeSystem::Float32) => Some(
                ConversionPolicy::Identity,
            ),
            (PostgresTypeSystem::Float8, ArrowTypeSystem::Float64) => Some(
                ConversionPolicy::Identity,
            ),
            (PostgresTypeSystem::Numeric, ArrowTypeSystem::Float64) => Some(
                ConversionPolicy::FallibleOrLossy,
            ),
            (PostgresTypeSystem::Int2, ArrowTypeSystem::Int16) => Some(
                ConversionPolicy::Identity,
            ),
            (PostgresTypeSystem::Int4, ArrowTypeSystem::Int32) => Some(
                ConversionPolicy::Identity,
            ),
            (PostgresTypeSystem::Int8, ArrowTypeSystem::Int64) => Some(
                ConversionPolicy::Identity,
            ),
            (PostgresTypeSystem::Bool, ArrowTypeSystem::Boolean) => Some(
                ConversionPolicy::Identity,
            ),
            (PostgresTypeSystem::Text, ArrowTypeSystem::LargeUtf8) => Some(
                ConversionPolicy::OwningCopy,
            ),
            (PostgresTypeSystem::BpChar, ArrowTypeSystem::LargeUtf8) => Some(
                ConversionPolicy::OwningCopy,
            ),
            (PostgresTypeSystem::VarChar, ArrowTypeSystem::LargeUtf8) => Some(
                ConversionPolicy::OwningCopy,
            ),
            (PostgresTypeSystem::Name, ArrowTypeSystem::LargeUtf8) => Some(
                ConversionPolicy::OwningCopy,
            ),
            (PostgresTypeSystem::Enum, ArrowTypeSystem::LargeUtf8) => Some(
                ConversionPolicy::OwningCopy,
            ),
            (PostgresTypeSystem::Timestamp, ArrowTypeSystem::Date64Micro) => Some(
                ConversionPolicy::AutoCast,
            ),
            (PostgresTypeSystem::Date, ArrowTypeSystem::Date32) => Some(
                ConversionPolicy::Identity,
            ),
            (PostgresTypeSystem::Time, ArrowTypeSystem::Time64Micro) => Some(
                ConversionPolicy::AutoCast,
            ),
            (PostgresTypeSystem::TimestampTz, ArrowTypeSystem::DateTimeTzMicro) => Some(
                ConversionPolicy::AutoCast,
            ),
            (PostgresTypeSystem::UUID, ArrowTypeSystem::LargeUtf8) => Some(
                ConversionPolicy::OwningCopy,
            ),
            (PostgresTypeSystem::Char, ArrowTypeSystem::LargeUtf8) => Some(
                ConversionPolicy::OwningCopy,
            ),
            (PostgresTypeSystem::ByteA, ArrowTypeSystem::LargeBinary) => Some(
                ConversionPolicy::Identity,
            ),
            (PostgresTypeSystem::JSON, ArrowTypeSystem::LargeUtf8) => Some(
                ConversionPolicy::OwningCopy,
            ),
            (PostgresTypeSystem::JSONB, ArrowTypeSystem::LargeUtf8) => Some(
                ConversionPolicy::OwningCopy,
            ),
            (PostgresTypeSystem::BoolArray, ArrowTypeSystem::BoolArray) => Some(
                ConversionPolicy::Identity,
            ),
            (PostgresTypeSystem::VarcharArray, ArrowTypeSystem::Utf8Array) => Some(
                ConversionPolicy::Identity,
            ),
            (PostgresTypeSystem::TextArray, ArrowTypeSystem::Utf8Array) => Some(
                ConversionPolicy::Identity,
            ),
            (PostgresTypeSystem::Int2Array, ArrowTypeSystem::Int16Array) => Some(
                ConversionPolicy::Identity,
            ),
            (PostgresTypeSystem::Int4Array, ArrowTypeSystem::Int32Array) => Some(
                ConversionPolicy::Identity,
            ),
            (PostgresTypeSystem::Int8Array, ArrowTypeSystem::Int64Array) => Some(
                ConversionPolicy::Identity,
            ),
            (PostgresTypeSystem::Float4Array, ArrowTypeSystem::Float32Array) => Some(
                ConversionPolicy::Identity,
            ),
            (PostgresTypeSystem::Float8Array, ArrowTypeSystem::Float64Array) => Some(
                ConversionPolicy::Identity,
            ),
            (PostgresTypeSystem::NumericArray, ArrowTypeSystem::Float64Array) => Some(
                ConversionPolicy::FallibleOrLossy,
            ),
            _ => None,
        }
    }

    /// The destination tag each source tag routes to.
    pub open spec fn route_of(src: PostgresTypeSystem) -> ArrowTypeSystem {
        match src {
            PostgresTypeSystem::Float4 => ArrowTypeSystem::Float32,
            PostgresTypeSystem::Float8 => ArrowTypeSystem::Float64,
            PostgresTypeSystem::Numeric => ArrowTypeSystem::Float64,
            PostgresTypeSystem::Int2 => ArrowTypeSystem::Int16,
            PostgresTypeSystem::Int4 => ArrowTypeSystem::Int32,
            PostgresTypeSystem::Int8 => ArrowTypeSystem::Int64,
            PostgresTypeSystem::Bool => ArrowTypeSystem::Boolean,
            PostgresTypeSystem::Text => ArrowTypeSystem::LargeUtf8,
            PostgresTypeSystem::BpChar => ArrowTypeSystem::LargeUtf8,
            PostgresTypeSystem::VarChar => ArrowTypeSystem::LargeUtf8,
            PostgresTypeSystem::Name => ArrowTypeSystem::LargeUtf8,
            PostgresTypeSystem::Enum => ArrowTypeSystem::LargeUtf8,
            PostgresTypeSystem::Timestamp => ArrowTypeSystem::Date64Micro,
            PostgresTypeSystem::Date => ArrowTypeSystem::Date32,
            PostgresTypeSystem::Time => ArrowTypeSystem::Time64Micro,
            PostgresTypeSystem::TimestampTz => ArrowTypeSystem::DateTimeTzMicro,
            PostgresTypeSystem::UUID => ArrowTypeSystem::LargeUtf8,
            PostgresTypeSystem::Char => ArrowTypeSystem::LargeUtf8,
            PostgresTypeSystem::ByteA => ArrowTypeSystem::LargeBinary,
            PostgresTypeSystem::JSON => ArrowTypeSystem::LargeUtf8,
            PostgresTypeSystem::JSONB => ArrowTypeSystem::LargeUtf8,
            PostgresTypeSystem::BoolArray => ArrowTypeSystem::BoolArray,
            PostgresTypeSystem::VarcharArray => ArrowTypeSystem::Utf8Array,
            PostgresTypeSystem::TextArray => ArrowTypeSystem::Utf8Array,
            PostgresTypeSystem::Int2Array => ArrowTypeSystem::Int16Array,
            PostgresTypeSystem::Int4Array => ArrowTypeSystem::Int32Array,
            PostgresTypeSystem::Int8Array => ArrowTypeSystem::Int64Array,
            PostgresTypeSystem::Float4Array => ArrowTypeSystem::Float32Array,
            PostgresTypeSystem::Float8Array => ArrowTypeSystem::Float64Array,
            PostgresTypeSystem::NumericArray => ArrowTypeSystem::Float64Array,
        }
    }

    /// Runtime lookup in the declarative table: one branch on the pair.
    pub fn policy(src: PostgresTypeSystem, dst: ArrowTypeSystem) -> (r: Option<ConversionPolicy>)
        ensures
            r == Self::policy_of(src, dst),
    {
        match (src, dst) {
            (PostgresTypeSystem::Float4, ArrowTypeSystem::Float32) => Some(
                ConversionPolicy::Identity,
            ),
            (PostgresTypeSystem::Float8, ArrowTypeSystem::Float64) => Some(
                ConversionPolicy::Identity,
            ),
            (PostgresTypeSystem::Numeric, ArrowTypeSystem::Float64) => Some(
                ConversionPolicy::FallibleOrLossy,
            ),
            (PostgresTypeSystem::Int2, ArrowTypeSystem::Int16) => Some(
                ConversionPolicy::Identity,
            ),
            (PostgresTypeSystem::Int4, ArrowTypeSystem::Int32) => Some(
                ConversionPolicy::Identity,
            ),
            (PostgresTypeSystem::Int8, ArrowTypeSystem::Int64) => Some(
                ConversionPolicy::Identity,
            ),
            (PostgresTypeSystem::Bool, ArrowTypeSystem::Boolean) => Some(
                ConversionPolicy::Identity,
            ),
            (PostgresTypeSystem::Text, ArrowTypeSystem::LargeUtf8) => Some(
                ConversionPolicy::OwningCopy,
            ),
            (PostgresTypeSystem::BpChar, ArrowTypeSystem::LargeUtf8) => Some(
                ConversionPolicy::OwningCopy,
            ),
            (PostgresTypeSystem::VarChar, ArrowTypeSystem::LargeUtf8) => Some(
                ConversionPolicy::OwningCopy,
            ),
            (PostgresTypeSystem::Name, ArrowTypeSystem::LargeUtf8) => Some(
                ConversionPolicy::OwningCopy,
            ),
            (PostgresTypeSystem::Enum, ArrowTypeSystem::LargeUtf8) => Some(
                ConversionPolicy::OwningCopy,
            ),
            (PostgresTypeSystem::Timestamp, ArrowTypeSystem::Date64Micro) => Some(
                ConversionPolicy::AutoCast,
            ),
            (PostgresTypeSystem::Date, ArrowTypeSystem::Date32) => Some(
                ConversionPolicy::Identity,
            ),
            (PostgresTypeSystem::Time, ArrowTypeSystem::Time64Micro) => Some(
                ConversionPolicy::AutoCast,
            ),
            (PostgresTypeSystem::TimestampTz, ArrowTypeSystem::DateTimeTzMicro) => Some(
                ConversionPolicy::AutoCast,
            ),
            (PostgresTypeSystem::UUID, ArrowTypeSystem::LargeUtf8) => Some(
                ConversionPolicy::OwningCopy,
            ),
            (PostgresTypeSystem::Char, ArrowTypeSystem::LargeUtf8) => Some(
                ConversionPolicy::OwningCopy,
            ),
            (PostgresTypeSystem::ByteA, ArrowTypeSystem::LargeBinary) => Some(
                ConversionPolicy::Identity,
            ),
            (PostgresTypeSystem::JSON, ArrowTypeSystem::LargeUtf8) => Some(
                ConversionPolicy::OwningCopy,
            ),
            (PostgresTypeSystem::JSONB, ArrowTypeSystem::LargeUtf8) => Some(
                ConversionPolicy::OwningCopy,
            ),
            (PostgresTypeSystem::BoolArray, ArrowTypeSystem::BoolArray) => Some(
                ConversionPolicy::Identity,
            ),
            (PostgresTypeSystem::VarcharArray, ArrowTypeSystem::Utf8Array) => Some(
                ConversionPolicy::Identity,
            ),
            (PostgresTypeSystem::TextArray, ArrowTypeSystem::Utf8Array) => Some(
                ConversionPolicy::Identity,
            ),
            (PostgresTypeSystem::Int2Array, ArrowTypeSystem::Int16Array) => Some(
                ConversionPolicy::Identity,
            ),
            (PostgresTypeSystem::Int4Array, ArrowTypeSystem::Int32Array) => Some(
                ConversionPolicy::Identity,
            ),
            (PostgresTypeSystem::Int8Array, ArrowTypeSystem::Int64Array) => Some(
                ConversionPolicy::Identity,
            ),
            (PostgresTypeSystem::Float4Array, ArrowTypeSystem::Float32Array) => Some(
                ConversionPolicy::Identity,
            ),
            (PostgresTypeSystem::Float8Array, ArrowTypeSystem::Float64Array) => Some(
                ConversionPolicy::Identity,
            ),
            (PostgresTypeSystem::NumericArray, ArrowTypeSystem::Float64Array) => Some(
                ConversionPolicy::FallibleOrLossy,
            ),
            _ => None,
        }
    }

    /// Map a source tag to its destination tag.
    pub fn map_tag(src: PostgresTypeSystem) -> (dst: ArrowTypeSystem)
        ensures
            dst == Self::route_of(src),
    {
        match src {
            PostgresTypeSystem::Float4 => ArrowTypeSystem::Float32,
            PostgresTypeSystem::Float8 => ArrowTypeSystem::Float64,
            PostgresTypeSystem::Numeric => ArrowTypeSystem::Float64,
            PostgresTypeSystem::Int2 => ArrowTypeSystem::Int16,
            PostgresTypeSystem::Int4 => ArrowTypeSystem::Int32,
            PostgresTypeSystem::Int8 => ArrowTypeSystem::Int64,
            PostgresTypeSystem::Bool => ArrowTypeSystem::Boolean,
            PostgresTypeSystem::Text => ArrowTypeSystem::LargeUtf8,
            PostgresTypeSystem::BpChar => ArrowTypeSystem::LargeUtf8,
            PostgresTypeSystem::VarChar => ArrowTypeSystem::LargeUtf8,
            PostgresTypeSystem::Name => ArrowTypeSystem::LargeUtf8,
            PostgresTypeSystem::Enum => ArrowTypeSystem::LargeUtf8,
            PostgresTypeSystem::Timestamp => ArrowTypeSystem::Date64Micro,
            PostgresTypeSystem::Date => ArrowTypeSystem::Date32,
            PostgresTypeSystem::Time => ArrowTypeSystem::Time64Micro,
            PostgresTypeSystem::TimestampTz => ArrowTypeSystem::DateTimeTzMicro,
            PostgresTypeSystem::UUID => ArrowTypeSystem::LargeUtf8,
            PostgresTypeSystem::Char => ArrowTypeSystem::LargeUtf8,
            PostgresTypeSystem::ByteA => ArrowTypeSystem::LargeBinary,
            PostgresTypeSystem::JSON => ArrowTypeSystem::LargeUtf8,
            PostgresTypeSystem::JSONB => ArrowTypeSystem::LargeUtf8,
            PostgresTypeSystem::BoolArray => ArrowTypeSystem::BoolArray,
            PostgresTypeSystem::VarcharArray => ArrowTypeSystem::Utf8Array,
            PostgresTypeSystem::TextArray => ArrowTypeSystem::Utf8Array,
            PostgresTypeSystem::Int2Array => ArrowTypeSystem::Int16Array,
            PostgresTypeSystem::Int4Array => ArrowTypeSystem::Int32Array,
            PostgresTypeSystem::Int8Array => ArrowTypeSystem::Int64Array,
            PostgresTypeSystem::Float4Array => ArrowTypeSystem::Float32Array,
            PostgresTypeSystem::Float8Array => ArrowTypeSystem::Float64Array,
            PostgresTypeSystem::NumericArray => ArrowTypeSystem::Float64Array,
        }
    }

    /// Every source tag routes to a destination tag the table covers: an
    /// omission would fail here, when the pairing is built, never per row.
    pub proof fn lemma_every_tag_routed(src: PostgresTypeSystem)
        ensures
            Self::policy_of(src, Self::route_of(src)) is Some,
    {
    }

    /// What a successful conversion yields: the exact relation each table
    /// row declares between the source value and the destination value.
    pub open spec fn converts_to(
        src: PostgresTypeSystem,
        dst: ArrowTypeSystem,
        v: NativeValue,
        w: NativeValue,
    ) -> bool {
        match (src, dst) {
            (PostgresTypeSystem::Numeric, ArrowTypeSystem::Float64) => v matches
                NativeValue::Decimal(m, s) && float_bits_of_decimal(m, s) matches Some(bits)
                && w == NativeValue::Float64(bits),
            (PostgresTypeSystem::Timestamp, ArrowTypeSystem::Date64Micro) => v matches
                NativeValue::Timestamp(t) && w == NativeValue::TimestampMicro(t),
            (PostgresTypeSystem::Time, ArrowTypeSystem::Time64Micro) => v matches
                NativeValue::Time(t) && w == NativeValue::TimeMicro(t),
            (PostgresTypeSystem::TimestampTz, ArrowTypeSystem::DateTimeTzMicro) => v matches
                NativeValue::TimestampTz(t) && w == NativeValue::TimestampTzMicro(t),
            (PostgresTypeSystem::UUID, ArrowTypeSystem::LargeUtf8) => v matches NativeValue::Uuid(
                b,
            ) && w matches NativeValue::Text(s) && s@ == uuid_text_of(b),
            (PostgresTypeSystem::JSON, ArrowTypeSystem::LargeUtf8) => v matches NativeValue::Json(
                t,
            ) && w == NativeValue::Text(t),
            (PostgresTypeSystem::JSONB, ArrowTypeSystem::LargeUtf8) => v matches NativeValue::Json(
                t,
            ) && w == NativeValue::Text(t),
            (PostgresTypeSystem::NumericArray, ArrowTypeSystem::Float64Array) => v matches
                NativeValue::DecimalArray(xs) && w matches NativeValue::Float64Array(ys)
                && ys@.len() == xs@.len() && (forall|j: int|
                0 <= j < xs@.len() ==> ys@[j] == dec_opt_bits(#[trigger] xs@[j])),
            _ => {
                if Self::policy_of(src, dst) is Some {
                    w == v
                } else {
                    false
                }
            },
        }
    }

    /// Exactly when a fallible conversion rejects the value: a decimal — or
    /// a decimal array element — whose parts name no representable decimal.
    pub open spec fn conversion_fails(src: PostgresTypeSystem, v: NativeValue) -> bool {
        match (src, v) {
            (PostgresTypeSystem::Numeric, NativeValue::Decimal(m, s)) => float_bits_of_decimal(
                m,
                s,
            ) is None,
            (PostgresTypeSystem::NumericArray, NativeValue::DecimalArray(xs)) => exists|j: int|
                0 <= j < xs@.len() && ((#[trigger] xs@[j]) matches Some(p)
                    && float_bits_of_decimal(p.0, p.1) is None),
            _ => false,
        }
    }

    /// A pair the table marks `AutoCast` converts every value of the source
    /// tag's native representation: it never fails, on the whole range.
    pub proof fn lemma_autocast_never_fails(
        src: PostgresTypeSystem,
        dst: ArrowTypeSystem,
        v: NativeValue,
    )
        requires
            Self::policy_of(src, dst) == Some(ConversionPolicy::AutoCast),
            v.kind() == src.native(),
        ensures
            !Self::conversion_fails(src, v),
            exists|w: NativeValue| Self::converts_to(src, dst, v, w),
    {
        match v {
            NativeValue::Timestamp(t) => {
                assert(Self::converts_to(src, dst, v, NativeValue::TimestampMicro(t)));
            },
            NativeValue::Time(t) => {
                assert(Self::converts_to(src, dst, v, NativeValue::TimeMicro(t)));
            },
            NativeValue::TimestampTz(t) => {
                assert(Self::converts_to(src, dst, v, NativeValue::TimestampTzMicro(t)));
            },
            _ => {
                assert(false);
            },
        }
    }

    /// Check a schema pairing before any row is read: every paired tag must
    /// have a policy row; the first pair without one fails with
    /// `UnsupportedMapping`.
    pub fn check_schema(src: &Vec<PostgresTypeSystem>, dst: &Vec<ArrowTypeSystem>) -> (r: Result<
        (),
        PostgresArrowTransportError,
    >)
        requires
            src@.len() == dst@.len(),
        ensures
            (r is Ok <==> forall|i: int|
                0 <= i < src@.len() ==> Self::policy_of(#[trigger] src@[i], dst@[i]) is Some),
            r matches Err(e) ==> (e matches PostgresArrowTransportError::UnsupportedMapping(s, d)
                && exists|i: int|
                0 <= i < src@.len() && #[trigger] src@[i] == s && dst@[i] == d
                    && Self::policy_of(s, d) is None),
    {
        let n = src.len();
        let mut i: usize = 0;
        while i < n
            invariant
                i <= n,
                n == src@.len(),
                src@.len() == dst@.len(),
                forall|j: int|
                    0 <= j < i ==> Self::policy_of(#[trigger] src@[j], dst@[j]) is Some,
            decreases n - i,
        {
            if Self::policy(src[i], dst[i]).is_none() {
                return Err(PostgresArrowTransportError::UnsupportedMapping(src[i], dst[i]));
            }
            i += 1;
        }
        Ok(())
    }

    /// Map a whole source schema to the destination schema it routes to.
    pub fn map_schema(src: &Vec<PostgresTypeSystem>) -> (dst: Vec<ArrowTypeSystem>)
        ensures
            dst@.len() == src@.len(),
            forall|i: int| 0 <= i < src@.len() ==> dst@[i] == Self::route_of(#[trigger] src@[i]),
    {
        let n = src.len();
        let mut dst: Vec<ArrowTypeSystem> = Vec::with_capacity(n);
        let mut i: usize = 0;
        while i < n
            invariant
                i == dst@.len(),
                i <= n,
                n == src@.len(),
                forall|j: int|
                    0 <= j < i ==> dst@[j] == Self::route_of(#[trigger] src@[j]),
            decreases n - i,
        {
            dst.push(Self::map_tag(src[i]));
            i += 1;
        }
        dst
    }

    /// Convert one source value for the given tag pair. Fails with
    /// `UnsupportedMapping` when the table has no row for the pair, with a
    /// type check error when the value is not of the source tag's native
    /// representation, and with `ConversionError` exactly when a fallible
    /// row rejects the value; otherwise it returns the one value the table
    /// row relates to the input.
    #[verifier::rlimit(60)]
    pub fn convert(src: PostgresTypeSystem, dst: ArrowTypeSystem, value: NativeValue) -> (r:
        Result<NativeValue, PostgresArrowTransportError>)
        ensures
            Self::policy_of(src, dst) is None ==> r == Err::<NativeValue, _>(
                PostgresArrowTransportError::UnsupportedMapping(src, dst),
            ),
            Self::policy_of(src, dst) is Some && value.kind() != src.native() ==> r == Err::<
                NativeValue,
                _,
            >(
                PostgresArrowTransportError::ConnectorX(
                    ConnectorXError::TypeCheckFailed { expected: src.native(), found: value.kind() },
                ),
            ),
            Self::policy_of(src, dst) is Some && value.kind() == src.native()
                && Self::conversion_fails(src, value) ==> (r matches Err(e) && e matches
                PostgresArrowTransportError::ConversionError(_)),
            Self::policy_of(src, dst) is Some && value.kind() == src.native()
                && !Self::conversion_fails(src, value) ==> (r matches Ok(w)
                && Self::converts_to(src, dst, value, w)),
    {
        if Self::policy(src, dst).is_none() {
            return Err(PostgresArrowTransportError::UnsupportedMapping(src, dst));
        }
        match check_value(src, &value) {
            Ok(()) => {},
            Err(e) => {
                return Err(PostgresArrowTransportError::ConnectorX(e));
            },
        }
        match (src, dst, value) {
            (PostgresTypeSystem::Float4, ArrowTypeSystem::Float32, v) => Ok(v),
            (PostgresTypeSystem::Float8, ArrowTypeSystem::Float64, v) => Ok(v),
            (
                PostgresTypeSystem::Numeric,
                ArrowTypeSystem::Float64,
                NativeValue::Decimal(m, s),
            ) => match decimal_to_float_bits(m, s) {
                Some(bits) => Ok(NativeValue::Float64(bits)),
                None => Err(
                    PostgresArrowTransportError::ConversionError(NativeValue::Decimal(m, s)),
                ),
            },
            (PostgresTypeSystem::Int2, ArrowTypeSystem::Int16, v) => Ok(v),
            (PostgresTypeSystem::Int4, ArrowTypeSystem::Int32, v) => Ok(v),
            (PostgresTypeSystem::Int8, ArrowTypeSystem::Int64, v) => Ok(v),
            (PostgresTypeSystem::Bool, ArrowTypeSystem::Boolean, v) => Ok(v),
            (PostgresTypeSystem::Text, ArrowTypeSystem::LargeUtf8, v) => Ok(v),
            (PostgresTypeSystem::BpChar, ArrowTypeSystem::LargeUtf8, v) => Ok(v),
            (PostgresTypeSystem::VarChar, ArrowTypeSystem::LargeUtf8, v) => Ok(v),
            (PostgresTypeSystem::Name, ArrowTypeSystem::LargeUtf8, v) => Ok(v),
            (PostgresTypeSystem::Enum, ArrowTypeSystem::LargeUtf8, v) => Ok(v),
            (
                PostgresTypeSystem::Timestamp,
                ArrowTypeSystem::Date64Micro,
                NativeValue::Timestamp(t),
            ) => Ok(NativeValue::TimestampMicro(t)),
            (PostgresTypeSystem::Date, ArrowTypeSystem::Date32, v) => Ok(v),
            (PostgresTypeSystem::Time, ArrowTypeSystem::Time64Micro, NativeValue::Time(t)) => Ok(
                NativeValue::TimeMicro(t),
            ),
            (
                PostgresTypeSystem::TimestampTz,
                ArrowTypeSystem::DateTimeTzMicro,
                NativeValue::TimestampTz(t),
            ) => Ok(NativeValue::TimestampTzMicro(t)),
            (PostgresTypeSystem::UUID, ArrowTypeSystem::LargeUtf8, NativeValue::Uuid(b)) => Ok(
                NativeValue::Text(uuid_to_string(b)),
            ),
            (PostgresTypeSystem::Char, ArrowTypeSystem::LargeUtf8, v) => Ok(v),
            (PostgresTypeSystem::ByteA, ArrowTypeSystem::LargeBinary, v) => Ok(v),
            (PostgresTypeSystem::JSON, ArrowTypeSystem::LargeUtf8, NativeValue::Json(t)) => Ok(
                NativeValue::Text(t),
            ),
            (PostgresTypeSystem::JSONB, ArrowTypeSystem::LargeUtf8, NativeValue::Json(t)) => Ok(
                NativeValue::Text(t),
            ),
            (PostgresTypeSystem::BoolArray, ArrowTypeSystem::BoolArray, v) => Ok(v),
            (PostgresTypeSystem::VarcharArray, ArrowTypeSystem::Utf8Array, v) => Ok(v),
            (PostgresTypeSystem::TextArray, ArrowTypeSystem::Utf8Array, v) => Ok(v),
            (PostgresTypeSystem::Int2Array, ArrowTypeSystem::Int16Array, v) => Ok(v),
            (PostgresTypeSystem::Int4Array, ArrowTypeSystem::Int32Array, v) => Ok(v),
            (PostgresTypeSystem::Int8Array, ArrowTypeSystem::Int64Array, v) => Ok(v),
            (PostgresTypeSystem::Float4Array, ArrowTypeSystem::Float32Array, v) => Ok(v),
            (PostgresTypeSystem::Float8Array, ArrowTypeSystem::Float64Array, v) => Ok(v),
            (
                PostgresTypeSystem::NumericArray,
                ArrowTypeSystem::Float64Array,
                NativeValue::DecimalArray(xs),
            ) => {
                let n = xs.len();
                let mut ys: Vec<Option<u64>> = Vec::with_capacity(n);
                let mut i: usize = 0;
                while i < n
                    invariant
                        src == PostgresTypeSystem::NumericArray,
                        dst == ArrowTypeSystem::Float64Array,
                        value == NativeValue::DecimalArray(xs),
                        i == ys@.len(),
                        i <= n,
                        n == xs@.len(),
                        forall|j: int| 0 <= j < i ==> ys@[j] == dec_opt_bits(#[trigger] xs@[j]),
                        forall|j: int|
                            0 <= j < i ==> !((#[trigger] xs@[j]) matches Some(p)
                                && float_bits_of_decimal(p.0, p.1) is None),
                    decreases n - i,
                {
                    match xs[i] {
                        None => {
                            ys.push(None);
                        },
                        Some(p) => {
                            match decimal_to_float_bits(p.0, p.1) {
                                Some(bits) => {
                                    ys.push(Some(bits));
                                },
                                None => {
                                    return Err(
                                        PostgresArrowTransportError::ConversionError(
                                            NativeValue::DecimalArray(xs),
                                        ),
                                    );
                                },
                            }
                        },
                    }
                    i += 1;
                }
                Ok(NativeValue::Float64Array(ys))
            },
            _ => {
                proof {
                    assert(false);
                }
                vstd::pervasive::unreached()
            },
        }
    }
}

} // verus!

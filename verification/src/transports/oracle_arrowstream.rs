//! Transport from an Oracle source to the columnar destination. Every row
//! of this table pairs identical native representations, so each value
//! passes through unchanged.

use vstd::prelude::*;
use crate::errors::{Arrow2DestinationError, ConnectorXError};
use crate::transports::ConversionPolicy;
use crate::typesystem::{check_value, ArrowTypeSystem, NativeKind, NativeValue, TypeSystem};

verus! {

/// Type tags of the Oracle source.
#[derive(Clone, Copy, Debug, PartialEq, Eq, Structural)]
pub enum OracleTypeSystem {
    NumFloat,
    Float,
    BinaryFloat,
    BinaryDouble,
    NumInt,
    Blob,
    Clob,
    VarChar,
    Char,
    NVarChar,
    NChar,
    Date,
    Timestamp,
    TimestampTz,
}

impl TypeSystem for OracleTypeSystem {
    open spec fn native(self) -> NativeKind {
        match self {
            OracleTypeSystem::NumFloat => NativeKind::Float64,
            OracleTypeSystem::Float => NativeKind::Float64,
            OracleTypeSystem::BinaryFloat => NativeKind::Float64,
            OracleTypeSystem::BinaryDouble => NativeKind::Float64,
            OracleTypeSystem::NumInt => NativeKind::Int64,
            OracleTypeSystem::Blob => NativeKind::Bytes,
            OracleTypeSystem::Clob => NativeKind::Text,
            OracleTypeSystem::VarChar => NativeKind::Text,
            OracleTypeSystem::Char => NativeKind::Text,
            OracleTypeSystem::NVarChar => NativeKind::Text,
            OracleTypeSystem::NChar => NativeKind::Text,
            OracleTypeSystem::Date => NativeKind::Timestamp,
            OracleTypeSystem::Timestamp => NativeKind::Timestamp,
            OracleTypeSystem::TimestampTz => NativeKind::TimestampTz,
        }
    }

    fn resolve_native(self) -> (k: NativeKind) {
        match self {
            OracleTypeSystem::NumFloat => NativeKind::Float64,
            OracleTypeSystem::Float => NativeKind::Float64,
            OracleTypeSystem::BinaryFloat => NativeKind::Float64,
            OracleTypeSystem::BinaryDouble => NativeKind::Float64,
            OracleTypeSystem::NumInt => NativeKind::Int64,
            OracleTypeSystem::Blob => NativeKind::Bytes,
            OracleTypeSystem::Clob => NativeKind::Text,
            OracleTypeSystem::VarChar => NativeKind::Text,
            OracleTypeSystem::Char => NativeKind::Text,
            OracleTypeSystem::NVarChar => NativeKind::Text,
            OracleTypeSystem::NChar => NativeKind::Text,
            OracleTypeSystem::Date => NativeKind::Timestamp,
            OracleTypeSystem::Timestamp => NativeKind::Timestamp,
            OracleTypeSystem::TimestampTz => NativeKind::TimestampTz,
        }
    }

    fn matches(self, kind: NativeKind) -> (r: bool) {
        kind == self.resolve_native()
    }
}

/// Errors of the Oracle-to-columnar transport.
#[derive(Clone, Copy, Debug, PartialEq, Eq, Structural)]
pub enum OracleArrowTransportError {
    /// An error of the destination, unchanged.
    Destination(Arrow2DestinationError),
    /// A shared engine error, unchanged.
    ConnectorX(ConnectorXError),
    /// No conversion policy is declared for this tag pair; raised at
    /// schema-allocation time, before any row is read.
    UnsupportedMapping(OracleTypeSystem, ArrowTypeSystem),
}

/// Converts Oracle source values to columnar destination values, following
/// the declarative tag-pair table.
pub struct OracleArrowTransport;

impl OracleArrowTransport {
    /// The declarative table: the one conversion policy of each supported
    /// (source tag, destination tag) pair, `None` for every other pair.
    /// Every pair of this transport binds identical native representations.
    pub open spec fn policy_of(src: OracleTypeSystem, dst: ArrowTypeSystem) -> Option<
        ConversionPolicy,
    > {
        match (src, dst) {
            (OracleTypeSystem::NumFloat, ArrowTypeSystem::Float64) => Some(
                ConversionPolicy::Identity,
            ),
            (OracleTypeSystem::Float, ArrowTypeSystem::Float64) => Some(
                ConversionPolicy::Identity,
            ),
            (OracleTypeSystem::BinaryFloat, ArrowTypeSystem::Float64) => Some(
                ConversionPolicy::Identity,
            ),
            (OracleTypeSystem::BinaryDouble, ArrowTypeSystem::Float64) => Some(
                ConversionPolicy::Identity,
            ),
            (OracleTypeSystem::NumInt, ArrowTypeSystem::Int64) => Some(
                ConversionPolicy::Identity,
            ),
            (OracleTypeSystem::Blob, ArrowTypeSystem::LargeBinary) => Some(
                ConversionPolicy::Identity,
            ),
            (OracleTypeSystem::Clob, ArrowTypeSystem::LargeUtf8) => Some(
                ConversionPolicy::Identity,
            ),
            (OracleTypeSystem::VarChar, ArrowTypeSystem::LargeUtf8) => Some(
                ConversionPolicy::Identity,
            ),
            (OracleTypeSystem::Char, ArrowTypeSystem::LargeUtf8) => Some(
                ConversionPolicy::Identity,
            ),
            (OracleTypeSystem::NVarChar, ArrowTypeSystem::LargeUtf8) => Some(
                ConversionPolicy::Identity,
            ),
            (OracleTypeSystem::NChar, ArrowTypeSystem::LargeUtf8) => Some(
                ConversionPolicy::Identity,
            ),
            (OracleTypeSystem::Date, ArrowTypeSystem::Date64) => Some(ConversionPolicy::Identity),
            (OracleTypeSystem::Timestamp, ArrowTypeSystem::Date64) => Some(
                ConversionPolicy::Identity,
            ),
            (OracleTypeSystem::TimestampTz, ArrowTypeSystem::DateTimeTz) => Some(
                ConversionPolicy::Identity,
            ),
            _ => None,
        }
    }

    /// The destination tag each source tag routes to.
    pub open spec fn route_of(src: OracleTypeSystem) -> ArrowTypeSystem {
        match src {
            OracleTypeSystem::NumFloat => ArrowTypeSystem::Float64,
            OracleTypeSystem::Float => ArrowTypeSystem::Float64,
            OracleTypeSystem::BinaryFloat => ArrowTypeSystem::Float64,
            OracleTypeSystem::BinaryDouble => ArrowTypeSystem::Float64,
            OracleTypeSystem::NumInt => ArrowTypeSystem::Int64,
            OracleTypeSystem::Blob => ArrowTypeSystem::LargeBinary,
            OracleTypeSystem::Clob => ArrowTypeSystem::LargeUtf8,
            OracleTypeSystem::VarChar => ArrowTypeSystem::LargeUtf8,
            OracleTypeSystem::Char => ArrowTypeSystem::LargeUtf8,
            OracleTypeSystem::NVarChar => ArrowTypeSystem::LargeUtf8,
            OracleTypeSystem::NChar => ArrowTypeSystem::LargeUtf8,
            OracleTypeSystem::Date => ArrowTypeSystem::Date64,
            OracleTypeSystem::Timestamp => ArrowTypeSystem::Date64,
            OracleTypeSystem::TimestampTz => ArrowTypeSystem::DateTimeTz,
        }
    }

    /// Runtime lookup in the declarative table: one branch on the pair.
    pub fn policy(src: OracleTypeSystem, dst: ArrowTypeSystem) -> (r: Option<ConversionPolicy>)
        ensures
            r == Self::policy_of(src, dst),
    {
        match (src, dst) {
            (OracleTypeSystem::NumFloat, ArrowTypeSystem::Float64) => Some(
                ConversionPolicy::Identity,
            ),
            (OracleTypeSystem::Float, ArrowTypeSystem::Float64) => Some(
                ConversionPolicy::Identity,
            ),
            (OracleTypeSystem::BinaryFloat, ArrowTypeSystem::Float64) => Some(
                ConversionPolicy::Identity,
            ),
            (OracleTypeSystem::BinaryDouble, ArrowTypeSystem::Float64) => Some(
                ConversionPolicy::Identity,
            ),
            (OracleTypeSystem::NumInt, ArrowTypeSystem::Int64) => Some(
                ConversionPolicy::Identity,
            ),
            (OracleTypeSystem::Blob, ArrowTypeSystem::LargeBinary) => Some(
                ConversionPolicy::Identity,
            ),
            (OracleTypeSystem::Clob, ArrowTypeSystem::LargeUtf8) => Some(
                ConversionPolicy::Identity,
            ),
            (OracleTypeSystem::VarChar, ArrowTypeSystem::LargeUtf8) => Some(
                ConversionPolicy::Identity,
            ),
            (OracleTypeSystem::Char, ArrowTypeSystem::LargeUtf8) => Some(
                ConversionPolicy::Identity,
            ),
            (OracleTypeSystem::NVarChar, ArrowTypeSystem::LargeUtf8) => Some(
                ConversionPolicy::Identity,
            ),
            (OracleTypeSystem::NChar, ArrowTypeSystem::LargeUtf8) => Some(
                ConversionPolicy::Identity,
            ),
            (OracleTypeSystem::Date, ArrowTypeSystem::Date64) => Some(ConversionPolicy::Identity),
            (OracleTypeSystem::Timestamp, ArrowTypeSystem::Date64) => Some(
                ConversionPolicy::Identity,
            ),
            (OracleTypeSystem::TimestampTz, ArrowTypeSystem::DateTimeTz) => Some(
                ConversionPolicy::Identity,
            ),
            _ => None,
        }
    }

    /// Map a source tag to its destination tag.
    pub fn map_tag(src: OracleTypeSystem) -> (dst: ArrowTypeSystem)
        ensures
            dst == Self::route_of(src),
    {
        match src {
            OracleTypeSystem::NumFloat => ArrowTypeSystem::Float64,
            OracleTypeSystem::Float => ArrowTypeSystem::Float64,
            OracleTypeSystem::BinaryFloat => ArrowTypeSystem::Float64,
            OracleTypeSystem::BinaryDouble => ArrowTypeSystem::Float64,
            OracleTypeSystem::NumInt => ArrowTypeSystem::Int64,
            OracleTypeSystem::Blob => ArrowTypeSystem::LargeBinary,
            OracleTypeSystem::Clob => ArrowTypeSystem::LargeUtf8,
            OracleTypeSystem::VarChar => ArrowTypeSystem::LargeUtf8,
            OracleTypeSystem::Char => ArrowTypeSystem::LargeUtf8,
            OracleTypeSystem::NVarChar => ArrowTypeSystem::LargeUtf8,
            OracleTypeSystem::NChar => ArrowTypeSystem::LargeUtf8,
            OracleTypeSystem::Date => ArrowTypeSystem::Date64,
            OracleTypeSystem::Timestamp => ArrowTypeSystem::Date64,
            OracleTypeSystem::TimestampTz => ArrowTypeSystem::DateTimeTz,
        }
    }

    /// Every source tag routes to a destination tag the table covers: an
    /// omission would fail here, when the pairing is built, never per row.
    pub proof fn lemma_every_tag_routed(src: OracleTypeSystem)
        ensures
            Self::policy_of(src, Self::route_of(src)) is Some,
    {
    }

    /// Check a schema pairing before any row is read: every paired tag must
    /// have a policy row; the first pair without one fails with
    /// `UnsupportedMapping`.
    pub fn check_schema(src: &Vec<OracleTypeSystem>, dst: &Vec<ArrowTypeSystem>) -> (r: Result<
        (),
        OracleArrowTransportError,
    >)
        requires
            src@.len() == dst@.len(),
        ensures
            (r is Ok <==> forall|i: int|
                0 <= i < src@.len() ==> Self::policy_of(#[trigger] src@[i], dst@[i]) is Some),
            r matches Err(e) ==> (e matches OracleArrowTransportError::UnsupportedMapping(s, d)
                && exists|i: int|
                0 <= i < src@.len() && #[trigger] src@[i] == s && dst@[i] == d
                    && Self::policy_of(s, d) is None),
    {
        let n = src.len();
        let mut i: usize = 0;
        while i < n
            invariant
                i <= n,
                n == src@.len(),
                src@.len() == dst@.len(),
                forall|j: int|
                    0 <= j < i ==> Self::policy_of(#[trigger] src@[j], dst@[j]) is Some,
            decreases n - i,
        {
            if Self::policy(src[i], dst[i]).is_none() {
                return Err(OracleArrowTransportError::UnsupportedMapping(src[i], dst[i]));
            }
            i += 1;
        }
        Ok(())
    }

    /// Convert one source value for the given tag pair. Fails with
    /// `UnsupportedMapping` when the table has no row for the pair and with
    /// a type check error when the value is not of the source tag's native
    /// representation; every declared pair is an identity, so an accepted
    /// value comes back unchanged.
    pub fn convert(src: OracleTypeSystem, dst: ArrowTypeSystem, value: NativeValue) -> (r: Result<
        NativeValue,
        OracleArrowTransportError,
    >)
        ensures
            Self::policy_of(src, dst) is None ==> r == Err::<NativeValue, _>(
                OracleArrowTransportError::UnsupportedMapping(src, dst),
            ),
            Self::policy_of(src, dst) is Some && value.kind() != src.native() ==> r == Err::<
                NativeValue,
                _,
            >(
                OracleArrowTransportError::ConnectorX(
                    ConnectorXError::TypeCheckFailed { expected: src.native(), found: value.kind() },
                ),
            ),
            Self::policy_of(src, dst) is Some && value.kind() == src.native() ==> r == Ok::<
                _,
                OracleArrowTransportError,
            >(value),
    {
        if Self::policy(src, dst).is_none() {
            return Err(OracleArrowTransportError::UnsupportedMapping(src, dst));
        }
        match check_value(src, &value) {
            Ok(()) => Ok(value),
            Err(e) => Err(OracleArrowTransportError::ConnectorX(e)),
        }
    }
}

} // verus!

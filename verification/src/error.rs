//! Error taxonomy: binary validation and text parsing failures.

use vstd::prelude::*;

verus! {

/// Errors returned when constructing or decoding raw identifier values.
#[derive(Debug, Clone, Copy, PartialEq, Eq)]
pub enum TtidError {
    /// Timestamp is larger than `TIMESTAMP_MAX`.
    TimestampOutOfRange,
    /// Value does not carry the fixed version and variant marker bits.
    InvalidUuid,
    /// Value is structurally valid but its type id is not known to the bound
    /// type mapping.
    UnknownTypeId(u16),
}

/// Errors returned when parsing `<type-name>_<compact-text>` strings.
#[derive(Debug, Clone, PartialEq, Eq)]
pub enum ParseTtidError {
    /// Input holds no separator.
    InvalidFormat,
    /// Type-name prefix is not known to the bound type mapping.
    UnknownTypeName,
    /// Compact-text suffix is rejected by the compact codec.
    InvalidShortUuid,
    /// The decoded value failed binary validation.
    Ttid(TtidError),
    /// Type-name prefix and the type id embedded in the value disagree.
    TypeMismatch,
}

impl TtidError {
    /// A short description of the failure.
    pub fn message(&self) -> (r: &'static str)
        ensures
            r@ == self.spec_message(),
    {
        match self {
            TtidError::TimestampOutOfRange => "timestamp exceeds 48-bit TTID limit",
            TtidError::InvalidUuid => "uuid is not a valid TTID UUIDv8",
            TtidError::UnknownTypeId(_) => "uuid contains unknown type id for this IdType",
        }
    }

    /// What `message` returns for each variant.
    pub open spec fn spec_message(&self) -> Seq<char> {
        match self {
            TtidError::TimestampOutOfRange => "timestamp exceeds 48-bit TTID limit"@,
            TtidError::InvalidUuid => "uuid is not a valid TTID UUIDv8"@,
            TtidError::UnknownTypeId(_) => "uuid contains unknown type id for this IdType"@,
        }
    }
}

impl ParseTtidError {
    /// A short description of the failure.
    pub fn message(&self) -> (r: &'static str)
        ensures
            r@ == self.spec_message(),
    {
        match self {
            ParseTtidError::InvalidFormat => "invalid TTID string format, expected <type>_<shortuuid>",
            ParseTtidError::UnknownTypeName => "unknown TTID type name",
            ParseTtidError::InvalidShortUuid => "invalid shortuuid value",
            ParseTtidError::Ttid(_) => "invalid TTID payload",
            ParseTtidError::TypeMismatch => "type name and encoded type id do not match",
        }
    }

    /// What `message` returns for each variant.
    pub open spec fn spec_message(&self) -> Seq<char> {
        match self {
            ParseTtidError::InvalidFormat => "invalid TTID string format, expected <type>_<shortuuid>"@,
            ParseTtidError::UnknownTypeName => "unknown TTID type name"@,
            ParseTtidError::InvalidShortUuid => "invalid shortuuid value"@,
            ParseTtidError::Ttid(_) => "invalid TTID payload"@,
            ParseTtidError::TypeMismatch => "type name and encoded type id do not match"@,
        }
    }
}

impl core::convert::From<TtidError> for ParseTtidError {
    /// Wraps a binary-validation error as a parse error.
    fn from(value: TtidError) -> (r: Self) {
        ParseTtidError::Ttid(value)
    }
}

impl vstd::std_specs::convert::FromSpecImpl<TtidError> for ParseTtidError {
    open spec fn obeys_from_spec() -> bool {
        true
    }

    open spec fn from_spec(value: TtidError) -> Self {
        ParseTtidError::Ttid(value)
    }
}

} // verus!

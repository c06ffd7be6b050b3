use vstd::prelude::*;

use crate::error::Error;
use crate::uuid_text::{uuid_text, uuid_value_of_text};

verus! {

/// Relies on `uuid::Uuid::parse_str` (read back with `Uuid::as_u128`): it accepts the
/// simple, hyphenated, braced and URN forms with hex digits of either case, and
/// reads the digits as one big-endian number.
#[verifier::external_body]
fn parse_uuid(text: &str) -> (r: Option<u128>)
    ensures
        r == uuid_value_of_text(text@),
{
    uuid::Uuid::parse_str(text).ok().map(|u| u.as_u128())
}

/// Relies on the `Display` of `uuid::Uuid` (built with `Uuid::from_u128`): lower-case
/// hyphenated text.
#[verifier::external_body]
fn format_uuid(value: u128) -> (r: String)
    ensures
        r@ == uuid_text(value),
{
    uuid::Uuid::from_u128(value).to_string()
}

/// Whether a UUID value carries version 4 and the RFC 4122 variant.
pub open spec fn is_v4(value: u128) -> bool {
    &&& (value >> 76u128) & 0xFu128 == 4u128
    &&& (value >> 62u128) & 0x3u128 == 2u128
}

/// Relies on `uuid::Uuid::new_v4`: random bits with the version set to 4 and the
/// variant to RFC 4122.
#[verifier::external_body]
fn random_uuid() -> (r: u128)
    ensures
        is_v4(r),
{
    uuid::Uuid::new_v4().as_u128()
}

/// The identifier of a product: a UUID, held as its 128-bit value.
#[derive(Debug, Clone, Copy, PartialEq, Eq, Structural)]
pub struct ProductId(u128);

impl View for ProductId {
    type V = u128;

    closed spec fn view(&self) -> u128 {
        self.0
    }
}

impl ProductId {
    /// Parses a UUID text in any form that UUID parsing accepts.
    pub fn new(value: &str) -> (r: Result<ProductId, Error>)
        ensures
            match r {
                Ok(id) => uuid_value_of_text(value@) == Some(id@),
                Err(e) => uuid_value_of_text(value@) is None && e is InvalidProductId,
            },
    {
        match parse_uuid(value) {
            Some(v) => Ok(ProductId(v)),
            None => Err(Error::InvalidProductId),
        }
    }

    pub fn from_uuid(value: u128) -> (r: ProductId)
        ensures
            r@ == value,
    {
        ProductId(value)
    }

    /// A fresh random (version 4) identifier.
    pub fn generate() -> (r: ProductId)
        ensures
            is_v4(r@),
    {
        ProductId(random_uuid())
    }

    pub fn to_uuid(self) -> (r: u128)
        ensures
            r == self@,
    {
        self.0
    }

    /// The canonical text: lower case, hyphenated.
    pub fn to_primitive(self) -> (r: String)
        ensures
            r@ == uuid_text(self@),
    {
        format_uuid(self.0)
    }
}

} // verus!

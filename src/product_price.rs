use vstd::prelude::*;

use crate::error::Error;

verus! {

pub const PRODUCT_PRICE_MIN: i32 = 0;

pub const PRODUCT_PRICE_MAX: i32 = 10_000_000 * 100;

pub open spec fn is_valid_price(value: i32) -> bool {
    PRODUCT_PRICE_MIN <= value <= PRODUCT_PRICE_MAX
}

/// The price of a product in minor units.
#[derive(Debug, Clone, Copy, PartialEq, Eq, Structural)]
pub struct ProductPrice(i32);

impl View for ProductPrice {
    type V = i32;

    closed spec fn view(&self) -> i32 {
        self.0
    }
}

impl ProductPrice {
    #[verifier::type_invariant]
    spec fn inv(self) -> bool {
        is_valid_price(self.0)
    }

    pub fn new(value: i32) -> (r: Result<ProductPrice, Error>)
        ensures
            match r {
                Ok(price) => is_valid_price(value) && price@ == value,
                Err(e) => !is_valid_price(value) && e is InvalidProductPrice,
            },
    {
        if PRODUCT_PRICE_MIN <= value && value <= PRODUCT_PRICE_MAX {
            Ok(ProductPrice(value))
        } else {
            Err(Error::InvalidProductPrice)
        }
    }

    pub fn to_primitive(self) -> (r: i32)
        ensures
            r == self@,
            is_valid_price(r),
    {
        proof {
            use_type_invariant(self);
        }
        self.0
    }
}

} // verus!

use vstd::prelude::*;
use vstd::utf8::encode_utf8;

use crate::error::Error;

verus! {

pub const NAME_MIN_LENGTH: usize = 1;

pub const NAME_MAX_LENGTH: usize = 256;

/// A name is between one and 256 bytes long in UTF-8.
pub open spec fn is_valid_name(s: Seq<char>) -> bool {
    NAME_MIN_LENGTH <= encode_utf8(s).len() <= NAME_MAX_LENGTH
}

/// The name of a product.
#[derive(Debug)]
pub struct ProductName(String);

impl View for ProductName {
    type V = Seq<char>;

    closed spec fn view(&self) -> Seq<char> {
        self.0@
    }
}

impl Clone for ProductName {
    fn clone(&self) -> (r: ProductName)
        ensures
            r@ == self@,
    {
        proof {
            use_type_invariant(self);
        }
        ProductName(self.0.clone())
    }
}

impl ProductName {
    #[verifier::type_invariant]
    spec fn inv(self) -> bool {
        is_valid_name(self.0@)
    }

    pub fn new(value: &str) -> (r: Result<ProductName, Error>)
        ensures
            match r {
                Ok(name) => is_valid_name(value@) && name@ == value@,
                Err(e) => !is_valid_name(value@) && e is InvalidProductName,
            },
    {
        let length = value.as_bytes().len();
        if NAME_MIN_LENGTH <= length && length <= NAME_MAX_LENGTH {
            Ok(ProductName(value.to_owned()))
        } else {
            Err(Error::InvalidProductName)
        }
    }

    pub fn to_primitive(&self) -> (r: String)
        ensures
            r@ == self@,
            is_valid_name(r@),
    {
        proof {
            use_type_invariant(self);
        }
        self.0.clone()
    }
}

} // verus!

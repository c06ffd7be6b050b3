use vstd::prelude::*;

use crate::error::Error;

verus! {

/// The currency of a price.
#[derive(Debug, Clone, Copy, PartialEq, Eq, Structural)]
pub enum ProductCurrency {
    Eur,
    Usd,
}

impl ProductCurrency {
    /// The textual form: the name of the currency.
    pub open spec fn text(self) -> Seq<char> {
        match self {
            ProductCurrency::Eur => "EUR"@,
            ProductCurrency::Usd => "USD"@,
        }
    }

    pub open spec fn is_valid_text(s: Seq<char>) -> bool {
        s == "EUR"@ || s == "USD"@
    }

    pub fn new(value: &str) -> (r: Result<ProductCurrency, Error>)
        ensures
            match r {
                Ok(c) => Self::is_valid_text(value@) && c.text() == value@,
                Err(e) => !Self::is_valid_text(value@) && e is InvalidProductCurrency,
            },
    {
        let text = value.to_owned();
        if text == "EUR".to_string() {
            Ok(ProductCurrency::Eur)
        } else if text == "USD".to_string() {
            Ok(ProductCurrency::Usd)
        } else {
            Err(Error::InvalidProductCurrency)
        }
    }

    pub fn to_primitive(self) -> (r: String)
        ensures
            r@ == self.text(),
    {
        match self {
            ProductCurrency::Eur => "EUR".to_string(),
            ProductCurrency::Usd => "USD".to_string(),
        }
    }
}

} // verus!

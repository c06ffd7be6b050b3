use vstd::prelude::*;

verus! {

/// A failure of the product domain, of authorisation or of persistence.
#[derive(Debug, Clone)]
pub enum Error {
    Persistence(String),
    ProductAlreadyExists,
    InvalidProductTimeStampRelation,
    InvalidProductId,
    InvalidProductName,
    InvalidProductPrice,
    InvalidProductCurrency,
    InvalidPermission,
}

impl Error {
    /// The display form of the error.
    pub open spec fn message(&self) -> Seq<char> {
        match self {
            Error::Persistence(reason) => "db error: "@ + reason@,
            Error::ProductAlreadyExists => "product already exists"@,
            Error::InvalidProductTimeStampRelation => "invalid product timestamp relation"@,
            Error::InvalidProductId => "invalid product id"@,
            Error::InvalidProductName => "invalid product name"@,
            Error::InvalidProductPrice => "invalid product price"@,
            Error::InvalidProductCurrency => "invalid product currency"@,
            Error::InvalidPermission => "invalid permission"@,
        }
    }

    /// Renders the display form of the error.
    pub fn to_string(&self) -> (r: String)
        ensures
            r@ == self.message(),
    {
        match self {
            Error::Persistence(reason) => {
                let mut text = "db error: ".to_string();
                text.append(reason.as_str());
                text
            },
            Error::ProductAlreadyExists => "product already exists".to_string(),
            Error::InvalidProductTimeStampRelation => "invalid product timestamp relation".to_string(),
            Error::InvalidProductId => "invalid product id".to_string(),
            Error::InvalidProductName => "invalid product name".to_string(),
            Error::InvalidProductPrice => "invalid product price".to_string(),
            Error::InvalidProductCurrency => "invalid product currency".to_string(),
            Error::InvalidPermission => "invalid permission".to_string(),
        }
    }
}

} // verus!

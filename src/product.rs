use vstd::prelude::*;

use crate::error::Error;
use crate::product_currency::ProductCurrency;
use crate::product_id::ProductId;
use crate::product_name::{is_valid_name, ProductName};
use crate::product_price::{is_valid_price, ProductPrice};
use crate::product_timestamp::ProductTimeStamp;
use crate::uuid_text::uuid_value_of_text;

verus! {

/// What a product holds, as plain values.
pub ghost struct ProductView {
    pub id: u128,
    pub name: Seq<char>,
    pub price: i32,
    pub currency: ProductCurrency,
    pub created_at: i64,
    pub updated_at: i64,
}

/// The first check that the inputs of a new product fail, in the order id, name,
/// price, currency.
pub open spec fn new_product_error(id: Seq<char>, name: Seq<char>, price: i32, currency: Seq<char>) -> Option<Error> {
    if uuid_value_of_text(id) is None {
        Some(Error::InvalidProductId)
    } else if !is_valid_name(name) {
        Some(Error::InvalidProductName)
    } else if !is_valid_price(price) {
        Some(Error::InvalidProductPrice)
    } else if !ProductCurrency::is_valid_text(currency) {
        Some(Error::InvalidProductCurrency)
    } else {
        None
    }
}

/// The first value object that a stored row fails to rebuild, by its type name.
pub open spec fn row_error(name: Seq<char>, price: i32, currency: Seq<char>, created_at: i64, updated_at: i64) -> Option<Seq<char>> {
    if !is_valid_name(name) {
        Some("ProductName"@)
    } else if !is_valid_price(price) {
        Some("ProductPrice"@)
    } else if !ProductCurrency::is_valid_text(currency) {
        Some("ProductCurrency"@)
    } else if created_at > updated_at {
        Some("ProductTimeStamp"@)
    } else {
        None
    }
}

/// A catalog product.
#[derive(Debug)]
pub struct Product {
    pub id: ProductId,
    pub name: ProductName,
    pub price: ProductPrice,
    pub currency: ProductCurrency,
    pub created_at: ProductTimeStamp,
    pub updated_at: ProductTimeStamp,
}

impl View for Product {
    type V = ProductView;

    open spec fn view(&self) -> ProductView {
        ProductView {
            id: self.id@,
            name: self.name@,
            price: self.price@,
            currency: self.currency,
            created_at: self.created_at@,
            updated_at: self.updated_at@,
        }
    }
}

impl Clone for Product {
    fn clone(&self) -> (r: Product)
        ensures
            r@ == self@,
    {
        Product {
            id: self.id,
            name: self.name.clone(),
            price: self.price,
            currency: self.currency,
            created_at: self.created_at,
            updated_at: self.updated_at,
        }
    }
}

impl Product {
    /// Products are never modified before they were created.
    pub open spec fn wf(&self) -> bool {
        self.created_at@ <= self.updated_at@
    }

    /// Builds a product from its primitive inputs, stamped with the current instant.
    pub fn new(id: String, name: String, price: i32, currency: String) -> (r: Result<Product, Error>)
        ensures
            match r {
                Ok(p) => {
                    &&& new_product_error(id@, name@, price, currency@) is None
                    &&& uuid_value_of_text(id@) == Some(p@.id)
                    &&& p@.name == name@
                    &&& p@.price == price
                    &&& p@.currency.text() == currency@
                    &&& p@.created_at == p@.updated_at
                    &&& p.wf()
                },
                Err(e) => new_product_error(id@, name@, price, currency@) == Some(e),
            },
    {
        let now = ProductTimeStamp::now();
        let product_id = match ProductId::new(id.as_str()) {
            Ok(v) => v,
            Err(e) => return Err(e),
        };
        let product_name = match ProductName::new(name.as_str()) {
            Ok(v) => v,
            Err(e) => return Err(e),
        };
        let product_price = match ProductPrice::new(price) {
            Ok(v) => v,
            Err(e) => return Err(e),
        };
        let product_currency = match ProductCurrency::new(currency.as_str()) {
            Ok(v) => v,
            Err(e) => return Err(e),
        };
        let product = Product {
            id: product_id,
            name: product_name,
            price: product_price,
            currency: product_currency,
            created_at: now,
            updated_at: now,
        };
        match product.validate() {
            Ok(()) => Ok(product),
            Err(e) => Err(e),
        }
    }

    /// Checks the relation between the two instants.
    pub fn validate(&self) -> (r: Result<(), Error>)
        ensures
            r is Ok <==> self.wf(),
            r matches Err(e) ==> e is InvalidProductTimeStampRelation,
    {
        if self.created_at.is_later_than(&self.updated_at) {
            return Err(Error::InvalidProductTimeStampRelation);
        }
        Ok(())
    }

    /// Rebuilds a stored product from the columns of its row, checking each value
    /// object; a failure names the type that could not be rebuilt.
    pub fn from_row(
        id: u128,
        name: String,
        price: i32,
        currency: String,
        created_at: i64,
        updated_at: i64,
    ) -> (r: Result<Product, String>)
        ensures
            match r {
                Ok(p) => {
                    &&& row_error(name@, price, currency@, created_at, updated_at) is None
                    &&& p@ == (ProductView {
                        id,
                        name: name@,
                        price,
                        currency: p@.currency,
                        created_at,
                        updated_at,
                    })
                    &&& p@.currency.text() == currency@
                    &&& p.wf()
                },
                Err(failed_type) => row_error(name@, price, currency@, created_at, updated_at) == Some(
                    failed_type@,
                ),
            },
    {
        let product_id = ProductId::from_uuid(id);
        let product_name = match ProductName::new(name.as_str()) {
            Ok(v) => v,
            Err(_) => return Err("ProductName".to_string()),
        };
        let product_price = match ProductPrice::new(price) {
            Ok(v) => v,
            Err(_) => return Err("ProductPrice".to_string()),
        };
        let product_currency = match ProductCurrency::new(currency.as_str()) {
            Ok(v) => v,
            Err(_) => return Err("ProductCurrency".to_string()),
        };
        let product = Product {
            id: product_id,
            name: product_name,
            price: product_price,
            currency: product_currency,
            created_at: ProductTimeStamp::from_millis(created_at),
            updated_at: ProductTimeStamp::from_millis(updated_at),
        };
        match product.validate() {
            Ok(()) => Ok(product),
            Err(_) => Err("ProductTimeStamp".to_string()),
        }
    }
}

} // verus!

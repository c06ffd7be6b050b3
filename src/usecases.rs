use vstd::prelude::*;

use crate::error::Error;
use crate::product::{new_product_error, Product, ProductView};
use crate::repository::{find, unique_ids, views, ProductRepository, MAX_LISTED};
use crate::uuid_text::uuid_value_of_text;

verus! {

/// An operation of the application, run once its caller holds the right permission.
pub trait UseCase {
    type Input;
    type Output;
    type Error;

    fn exec(&mut self, request: Self::Input) -> Result<Self::Output, Self::Error>;
}

/// The client payload of a new product.
#[derive(Debug, Clone)]
pub struct SaveProductInput {
    pub id: String,
    pub name: String,
    pub price: i32,
    pub currency: String,
}

/// Whether a stored product is the one that the payload describes.
pub open spec fn is_product_for(p: ProductView, input: SaveProductInput) -> bool {
    &&& uuid_value_of_text(input.id@) == Some(p.id)
    &&& p.name == input.name@
    &&& p.price == input.price
    &&& p.currency.text() == input.currency@
    &&& p.created_at == p.updated_at
}

pub open spec fn input_error(input: SaveProductInput) -> Option<Error> {
    new_product_error(input.id@, input.name@, input.price, input.currency@)
}

/// Lists the catalog.
pub struct GetProducts<R: ProductRepository> {
    pub product_repository: R,
}

impl<R: ProductRepository> GetProducts<R> {
    pub fn new(product_repository: R) -> (r: Self)
        ensures
            r.product_repository == product_repository,
    {
        Self { product_repository }
    }
}

impl<R: ProductRepository> UseCase for GetProducts<R> {
    type Input = ();
    type Output = Vec<Product>;
    type Error = Error;

    fn exec(&mut self, request: ()) -> (r: Result<Vec<Product>, Error>)
        ensures
            *final(self) == *old(self),
            r matches Ok(v) ==> {
                &&& v.len() <= MAX_LISTED
                &&& unique_ids(views(v@))
                &&& forall|i: int|
                    0 <= i < v.len() ==> find(old(self).product_repository.rows(), #[trigger] v[i]@.id) == Some(
                        v[i]@,
                    )
            },
    {
        self.product_repository.get()
    }
}

/// Creates a product from a client payload and stores it.
pub struct SaveProduct<R: ProductRepository> {
    pub product_repository: R,
}

impl<R: ProductRepository> SaveProduct<R> {
    pub fn new(product_repository: R) -> (r: Self)
        ensures
            r.product_repository == product_repository,
    {
        Self { product_repository }
    }
}

impl<R: ProductRepository> UseCase for SaveProduct<R> {
    type Input = SaveProductInput;
    type Output = ();
    type Error = Error;

    fn exec(&mut self, input: SaveProductInput) -> (r: Result<(), Error>)
        ensures
            input_error(input) matches Some(e) ==> r == Err::<(), Error>(e),
            input_error(input) is None && find(old(self).product_repository.rows(), uuid_value_of_text(input.id@)->0)
                is Some ==> (r matches Err(e) && e is ProductAlreadyExists),
            r is Ok ==> {
                let after = final(self).product_repository.rows();
                &&& after.len() == old(self).product_repository.rows().len() + 1
                &&& after.drop_last() == old(self).product_repository.rows()
                &&& is_product_for(after.last(), input)
            },
            r is Err ==> final(self).product_repository.rows() == old(self).product_repository.rows(),
    {
        let new_product = match Product::new(input.id, input.name, input.price, input.currency) {
            Ok(p) => p,
            Err(e) => return Err(e),
        };
        let r = self.product_repository.save(&new_product);
        proof {
            if r is Ok {
                let after = self.product_repository.rows();
                assert(after.drop_last() =~= old(self).product_repository.rows());
            }
        }
        r
    }
}

} // verus!

use vstd::prelude::*;

use crate::error::Error;
use crate::identity::IdentityClaims;
use crate::permissions::Permissions;
use crate::product::Product;
use crate::repository::{find, unique_ids, views, ProductRepository, MAX_LISTED};
use crate::usecases::{input_error, is_product_for, GetProducts, SaveProduct, SaveProductInput, UseCase};
use crate::uuid_text::uuid_value_of_text;

verus! {

/// Lists the catalog for claims that grant the read permission.
pub fn get_products<R: ProductRepository>(identity_claims: &IdentityClaims, usecase: &mut GetProducts<R>) -> (r:
    Result<Vec<Product>, Error>)
    ensures
        *final(usecase) == *old(usecase),
        !identity_claims.grants(Permissions::EcommerceBackofficeProductRead) ==> (r matches Err(e)
            && e is InvalidPermission),
        r matches Ok(v) ==> {
            &&& identity_claims.grants(Permissions::EcommerceBackofficeProductRead)
            &&& v.len() <= MAX_LISTED
            &&& unique_ids(views(v@))
            &&& forall|i: int|
                0 <= i < v.len() ==> find(old(usecase).product_repository.rows(), #[trigger] v[i]@.id) == Some(
                    v[i]@,
                )
        },
{
    match identity_claims.check_permission(Permissions::EcommerceBackofficeProductRead) {
        Ok(()) => {},
        Err(e) => return Err(e),
    }
    usecase.exec(())
}

/// The product that a create request asks for, once the claims grant the create
/// permission; storing it is left to the caller.
pub fn prepare_product(identity_claims: &IdentityClaims, body: SaveProductInput) -> (r: Result<Product, Error>)
    ensures
        !identity_claims.grants(Permissions::EcommerceBackofficeProductCreate) ==> (r matches Err(e)
            && e is InvalidPermission),
        identity_claims.grants(Permissions::EcommerceBackofficeProductCreate) ==> match r {
            Ok(p) => input_error(body) is None && is_product_for(p@, body) && p.wf(),
            Err(e) => input_error(body) == Some(e),
        },
{
    match identity_claims.check_permission(Permissions::EcommerceBackofficeProductCreate) {
        Ok(()) => {},
        Err(e) => return Err(e),
    }
    Product::new(body.id, body.name, body.price, body.currency)
}

/// Creates a product for claims that grant the create permission.
pub fn save_product<R: ProductRepository>(
    identity_claims: &IdentityClaims,
    usecase: &mut SaveProduct<R>,
    body: SaveProductInput,
) -> (r: Result<(), Error>)
    ensures
        !identity_claims.grants(Permissions::EcommerceBackofficeProductCreate) ==> (r matches Err(e)
            && e is InvalidPermission),
        identity_claims.grants(Permissions::EcommerceBackofficeProductCreate) ==> {
            &&& input_error(body) matches Some(e) ==> r == Err::<(), Error>(e)
            &&& input_error(body) is None && find(
                old(usecase).product_repository.rows(),
                uuid_value_of_text(body.id@)->0,
            ) is Some ==> (r matches Err(e) && e is ProductAlreadyExists)
        },
        r is Ok ==> {
            let after = final(usecase).product_repository.rows();
            &&& after.len() == old(usecase).product_repository.rows().len() + 1
            &&& after.drop_last() == old(usecase).product_repository.rows()
            &&& is_product_for(after.last(), body)
        },
        r is Err ==> final(usecase).product_repository.rows() == old(usecase).product_repository.rows(),
{
    match identity_claims.check_permission(Permissions::EcommerceBackofficeProductCreate) {
        Ok(()) => {},
        Err(e) => return Err(e),
    }
    usecase.exec(body)
}

} // verus!

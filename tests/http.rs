use backoffice::error::Error;
use backoffice::handlers::{get_products, prepare_product, save_product};
use backoffice::http_errors::{problem_details_of, response_status};
use backoffice::identity::IdentityClaims;
use backoffice::jwt::token_and_key_id;
use backoffice::permissions::Permissions;
use backoffice::product::Product;
use backoffice::repository::{InMemoryProductRepository, ProductRepository};
use backoffice::usecases::{GetProducts, SaveProduct, SaveProductInput};

fn claims(permissions: &[Permissions]) -> IdentityClaims {
    IdentityClaims {
        sub: Some("user".to_string()),
        permissions: Some(permissions.iter().map(|p| p.to_string()).collect()),
    }
}

fn book(price: i32) -> SaveProductInput {
    SaveProductInput {
        id: "550e8400-e29b-41d4-a716-446655440000".to_string(),
        name: "Book".to_string(),
        price,
        currency: "EUR".to_string(),
    }
}

#[test]
fn given_no_token_when_request_then_return_401() {
    let problem = token_and_key_id(None).unwrap_err();
    assert_eq!(response_status(&problem), 401);
    assert_eq!(problem.ttype, "https://www.rfc-editor.org/rfc/rfc9110.html#name-401-unauthorized");
    assert_eq!(problem.title, "Unauthorized");
    assert_eq!(problem.detail, "Unauthorized");
    assert_eq!(problem.status, 401);
}

#[test]
fn given_no_permissions_when_request_then_return_403() {
    let mut usecase = GetProducts::new(InMemoryProductRepository::new());
    let error = get_products(&claims(&[]), &mut usecase).unwrap_err();
    let problem = problem_details_of(&error);
    assert_eq!(response_status(&problem), 403);
    assert_eq!(problem.detail, Error::InvalidPermission.to_string());
    assert_eq!(problem.status, 403);
}

#[test]
fn get_products_given_empty_database_when_request_then_return_200() {
    let mut usecase = GetProducts::new(InMemoryProductRepository::new());
    let products = get_products(&claims(&[Permissions::EcommerceBackofficeProductRead]), &mut usecase).unwrap();
    assert!(products.is_empty());
}

#[test]
fn get_products_given_products_on_database_when_request_then_return_200() {
    let mut repository = InMemoryProductRepository::new();
    for id in ["00000000-0000-0000-0000-000000000001", "00000000-0000-0000-0000-000000000002"] {
        repository.save(&Product::new(id.to_string(), "Pen".to_string(), 150, "USD".to_string()).unwrap()).unwrap();
    }
    let mut usecase = GetProducts::new(repository);
    let products = get_products(&claims(&[Permissions::EcommerceBackofficeProductRead]), &mut usecase).unwrap();
    assert_eq!(products.len(), 2);
}

#[test]
fn read_permission_does_not_allow_create() {
    let mut usecase = SaveProduct::new(InMemoryProductRepository::new());
    let error = save_product(&claims(&[Permissions::EcommerceBackofficeProductRead]), &mut usecase, book(1999))
        .unwrap_err();
    assert!(matches!(error, Error::InvalidPermission));
    assert!(usecase.product_repository.get().unwrap().is_empty());
}

#[test]
fn missing_permission_set_is_forbidden() {
    let no_set = IdentityClaims { sub: None, permissions: None };
    assert!(matches!(
        no_set.check_permission(Permissions::EcommerceBackofficeProductRead),
        Err(Error::InvalidPermission)
    ));
}

#[test]
fn create_with_permission_is_accepted() {
    let mut usecase = SaveProduct::new(InMemoryProductRepository::new());
    let grant = claims(&[Permissions::EcommerceBackofficeProductCreate]);
    assert!(save_product(&grant, &mut usecase, book(1999)).is_ok());
    let stored = usecase.product_repository.get().unwrap();
    assert_eq!(stored.len(), 1);
    assert_eq!(stored[0].id.to_primitive(), "550e8400-e29b-41d4-a716-446655440000");
    assert_eq!(stored[0].price.to_primitive(), 1999);
}

#[test]
fn repeating_a_create_is_rejected_as_existing() {
    let mut usecase = SaveProduct::new(InMemoryProductRepository::new());
    let grant = claims(&[Permissions::EcommerceBackofficeProductCreate]);
    save_product(&grant, &mut usecase, book(1999)).unwrap();
    let error = save_product(&grant, &mut usecase, book(1999)).unwrap_err();
    let problem = problem_details_of(&error);
    assert_eq!(response_status(&problem), 400);
    assert_eq!(problem.detail, "product already exists");
}

#[test]
fn create_with_negative_price_is_rejected() {
    let mut usecase = SaveProduct::new(InMemoryProductRepository::new());
    let grant = claims(&[Permissions::EcommerceBackofficeProductCreate]);
    let error = save_product(&grant, &mut usecase, book(-1)).unwrap_err();
    let problem = problem_details_of(&error);
    assert_eq!(response_status(&problem), 400);
    assert_eq!(problem.detail, "invalid product price");
    assert!(usecase.product_repository.get().unwrap().is_empty());
}

#[test]
fn prepared_product_needs_create_permission_and_valid_input() {
    let read = claims(&[Permissions::EcommerceBackofficeProductRead]);
    assert!(matches!(prepare_product(&read, book(1999)), Err(Error::InvalidPermission)));
    let create = claims(&[Permissions::EcommerceBackofficeProductCreate]);
    assert!(matches!(prepare_product(&create, book(-1)), Err(Error::InvalidProductPrice)));
    let product = prepare_product(&create, book(1999)).unwrap();
    assert_eq!(product.id.to_primitive(), "550e8400-e29b-41d4-a716-446655440000");
    assert_eq!(product.name.to_primitive(), "Book");
    assert_eq!(product.created_at, product.updated_at);
}

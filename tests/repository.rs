use backoffice::error::Error;
use backoffice::product::Product;
use backoffice::product_currency::ProductCurrency;
use backoffice::product_id::ProductId;
use backoffice::product_price::{PRODUCT_PRICE_MAX, PRODUCT_PRICE_MIN};
use backoffice::random::{generate_alphanumeric_string, generate_int_from_range};
use backoffice::repository::{InMemoryProductRepository, ProductRepository};

fn random_product() -> Product {
    let id = ProductId::generate().to_primitive();
    let name = generate_alphanumeric_string(None);
    let price = generate_int_from_range(Some(PRODUCT_PRICE_MIN), Some(PRODUCT_PRICE_MAX));
    Product::new(id, name, price, "EUR".to_string()).unwrap()
}

#[test]
fn given_empty_database_when_get_then_return_empty_vec() {
    let repository = InMemoryProductRepository::new();

    assert!(repository.get().unwrap().is_empty());
}

#[test]
fn given_products_on_database_when_get_then_return_fulfilled_vec() {
    let mut repository = InMemoryProductRepository::new();

    for _ in 0..5 {
        repository.save(&random_product()).unwrap();
    }

    assert_eq!(repository.get().unwrap().len(), 5);
}

#[test]
fn given_empty_database_when_get_by_id_then_return_none() {
    let repository = InMemoryProductRepository::new();

    let id = ProductId::generate();

    assert!(repository.get_by_id(&id).unwrap().is_none());
}

#[test]
fn given_products_on_database_when_get_by_id_then_return_some() {
    let mut repository = InMemoryProductRepository::new();

    let product = random_product();
    repository.save(&product).unwrap();

    assert!(repository.get_by_id(&product.id).unwrap().is_some());
}

#[test]
fn given_empty_database_when_save_then_return_ok() {
    let mut repository = InMemoryProductRepository::new();

    let product = random_product();

    assert!(repository.save(&product).is_ok());
}

#[test]
fn given_products_on_database_when_save_with_same_id_then_return_err() {
    let mut repository = InMemoryProductRepository::new();

    let product = random_product();

    assert!(repository.save(&product).is_ok());

    assert!(matches!(repository.save(&product).err().unwrap(), Error::ProductAlreadyExists));
}

#[test]
fn saved_product_is_read_back_field_by_field() {
    let mut repository = InMemoryProductRepository::new();
    let product = Product::new(
        "550e8400-e29b-41d4-a716-446655440000".to_string(),
        "Book".to_string(),
        1999,
        "EUR".to_string(),
    )
    .unwrap();
    repository.save(&product).unwrap();
    let found = repository.get_by_id(&product.id).unwrap().unwrap();
    assert_eq!(found.id, product.id);
    assert_eq!(found.name.to_primitive(), product.name.to_primitive());
    assert_eq!(found.price, product.price);
    assert_eq!(found.currency, ProductCurrency::Eur);
    assert_eq!(found.created_at, product.created_at);
    assert_eq!(found.updated_at, product.updated_at);
}

#[test]
fn listing_stops_at_fifty() {
    let mut repository = InMemoryProductRepository::new();
    for _ in 0..60 {
        repository.save(&random_product()).unwrap();
    }
    let listing = repository.get().unwrap();
    assert_eq!(listing.len(), 50);
    let mut ids: Vec<u128> = listing.iter().map(|p| p.id.to_uuid()).collect();
    ids.sort();
    ids.dedup();
    assert_eq!(ids.len(), 50);
}

#[test]
fn other_ids_are_not_found() {
    let mut repository = InMemoryProductRepository::new();
    repository.save(&random_product()).unwrap();
    let other = ProductId::new("00000000-0000-0000-0000-000000000001").unwrap();
    assert!(repository.get_by_id(&other).unwrap().is_none());
}

#[test]
fn random_helpers_respect_their_bounds() {
    let s = generate_alphanumeric_string(Some(30));
    assert_eq!(s.len(), 30);
    assert!(s.chars().all(|c| c.is_ascii_alphanumeric()));
    assert_eq!(generate_alphanumeric_string(None).len(), 12);
    assert_eq!(generate_alphanumeric_string(Some(0)), "");
    for _ in 0..100 {
        let v = generate_int_from_range(Some(5), Some(7));
        assert!((5..=7).contains(&v));
        let d = generate_int_from_range(None, None);
        assert!((0..=1_000_000).contains(&d));
    }
    assert_eq!(generate_int_from_range(Some(3), Some(3)), 3);
}

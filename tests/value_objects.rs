use backoffice::error::Error;
use backoffice::product::Product;
use backoffice::product_currency::ProductCurrency;
use backoffice::product_id::ProductId;
use backoffice::product_name::ProductName;
use backoffice::product_price::{ProductPrice, PRODUCT_PRICE_MAX, PRODUCT_PRICE_MIN};
use backoffice::product_timestamp::ProductTimeStamp;

#[test]
fn name_of_one_byte_round_trips() {
    let name = ProductName::new("a").unwrap();
    assert_eq!(name.to_primitive(), "a");
}

#[test]
fn name_of_256_bytes_round_trips() {
    let text = "x".repeat(256);
    let name = ProductName::new(&text).unwrap();
    assert_eq!(name.to_primitive(), text);
}

#[test]
fn name_counts_bytes_not_characters() {
    let text = "é".repeat(128);
    assert_eq!(text.len(), 256);
    assert!(ProductName::new(&text).is_ok());
    let longer = "é".repeat(129);
    assert!(matches!(ProductName::new(&longer), Err(Error::InvalidProductName)));
}

#[test]
fn empty_name_is_invalid() {
    assert!(matches!(ProductName::new(""), Err(Error::InvalidProductName)));
}

#[test]
fn name_of_257_bytes_is_invalid() {
    let text = "x".repeat(257);
    assert!(matches!(ProductName::new(&text), Err(Error::InvalidProductName)));
}

#[test]
fn price_bounds_round_trip() {
    assert_eq!(ProductPrice::new(0).unwrap().to_primitive(), 0);
    assert_eq!(ProductPrice::new(1999).unwrap().to_primitive(), 1999);
    assert_eq!(ProductPrice::new(1_000_000_000).unwrap().to_primitive(), 1_000_000_000);
    assert_eq!(PRODUCT_PRICE_MIN, 0);
    assert_eq!(PRODUCT_PRICE_MAX, 1_000_000_000);
}

#[test]
fn price_outside_bounds_is_invalid() {
    assert!(matches!(ProductPrice::new(-1), Err(Error::InvalidProductPrice)));
    assert!(matches!(ProductPrice::new(1_000_000_001), Err(Error::InvalidProductPrice)));
    assert!(matches!(ProductPrice::new(i32::MIN), Err(Error::InvalidProductPrice)));
}

#[test]
fn currency_round_trips_through_its_text() {
    assert_eq!(ProductCurrency::new("EUR").unwrap(), ProductCurrency::Eur);
    assert_eq!(ProductCurrency::new("USD").unwrap(), ProductCurrency::Usd);
    assert_eq!(ProductCurrency::Eur.to_primitive(), "EUR");
    assert_eq!(ProductCurrency::Usd.to_primitive(), "USD");
}

#[test]
fn unknown_currency_is_invalid() {
    assert!(matches!(ProductCurrency::new("eur"), Err(Error::InvalidProductCurrency)));
    assert!(matches!(ProductCurrency::new("GBP"), Err(Error::InvalidProductCurrency)));
    assert!(matches!(ProductCurrency::new(""), Err(Error::InvalidProductCurrency)));
}

#[test]
fn hyphenated_id_round_trips_in_lower_case() {
    let id = ProductId::new("550E8400-E29B-41D4-A716-446655440000").unwrap();
    assert_eq!(id.to_primitive(), "550e8400-e29b-41d4-a716-446655440000");
    assert_eq!(id.to_uuid(), 0x550e8400_e29b_41d4_a716_446655440000u128);
}

#[test]
fn other_uuid_forms_parse_to_the_same_id() {
    let hyphenated = ProductId::new("550e8400-e29b-41d4-a716-446655440000").unwrap();
    let simple = ProductId::new("550e8400e29b41d4a716446655440000").unwrap();
    let braced = ProductId::new("{550e8400-e29b-41d4-a716-446655440000}").unwrap();
    let urn = ProductId::new("URN:uuid:550e8400-e29b-41d4-a716-446655440000").unwrap();
    assert_eq!(simple, hyphenated);
    assert_eq!(braced, hyphenated);
    assert_eq!(urn, hyphenated);
}

#[test]
fn malformed_id_is_invalid() {
    assert!(matches!(ProductId::new("not-a-uuid"), Err(Error::InvalidProductId)));
    assert!(matches!(ProductId::new("550e8400-e29b-41d4-a716-44665544000g"), Err(Error::InvalidProductId)));
    assert!(matches!(ProductId::new("550e8400e29b-41d4-a716-4466554400000"), Err(Error::InvalidProductId)));
}

#[test]
fn generated_ids_differ() {
    assert_ne!(ProductId::generate(), ProductId::generate());
}

#[test]
fn generated_ids_are_version_4_rfc_4122() {
    for _ in 0..20 {
        let v = ProductId::generate().to_uuid();
        assert_eq!((v >> 76) & 0xF, 4);
        assert_eq!((v >> 62) & 0x3, 2);
        assert_eq!(ProductId::generate().to_primitive().as_bytes()[14], b'4');
    }
}

#[test]
fn timestamp_text_has_milliseconds_and_offset() {
    let epoch = ProductTimeStamp::from_millis(0);
    assert_eq!(epoch.to_rfc3339().unwrap(), "1970-01-01T00:00:00.000+00:00");
    let later = ProductTimeStamp::from_millis(1_700_000_000_123);
    assert_eq!(later.to_rfc3339().unwrap(), "2023-11-14T22:13:20.123+00:00");
    assert!(later.is_later_than(&epoch));
    assert!(!epoch.is_later_than(&later));
    assert_eq!(later.to_primitive(), 1_700_000_000_123);
}

#[test]
fn new_product_has_equal_timestamps() {
    let product = Product::new(
        "550e8400-e29b-41d4-a716-446655440000".to_string(),
        "Book".to_string(),
        1999,
        "EUR".to_string(),
    )
    .unwrap();
    assert_eq!(product.created_at, product.updated_at);
    assert!(product.validate().is_ok());
    assert_eq!(product.name.to_primitive(), "Book");
    assert_eq!(product.price.to_primitive(), 1999);
    assert_eq!(product.currency, ProductCurrency::Eur);
}

#[test]
fn new_product_reports_the_first_invalid_field() {
    let r = Product::new("bad".to_string(), "".to_string(), -1, "XXX".to_string());
    assert!(matches!(r, Err(Error::InvalidProductId)));
    let id = "550e8400-e29b-41d4-a716-446655440000".to_string();
    let r = Product::new(id.clone(), "".to_string(), -1, "XXX".to_string());
    assert!(matches!(r, Err(Error::InvalidProductName)));
    let r = Product::new(id.clone(), "Book".to_string(), -1, "XXX".to_string());
    assert!(matches!(r, Err(Error::InvalidProductPrice)));
    let r = Product::new(id, "Book".to_string(), 1, "XXX".to_string());
    assert!(matches!(r, Err(Error::InvalidProductCurrency)));
}

#[test]
fn product_from_row_rebuilds_each_value_object() {
    let p = Product::from_row(7, "Book".to_string(), 10, "USD".to_string(), 5, 9).unwrap();
    assert_eq!(p.id.to_uuid(), 7);
    assert_eq!(p.currency, ProductCurrency::Usd);
    assert_eq!(p.created_at.to_primitive(), 5);
    assert_eq!(p.updated_at.to_primitive(), 9);
    assert_eq!(Product::from_row(7, "".to_string(), 10, "USD".to_string(), 5, 9).unwrap_err(), "ProductName");
    assert_eq!(Product::from_row(7, "B".to_string(), -5, "USD".to_string(), 5, 9).unwrap_err(), "ProductPrice");
    assert_eq!(Product::from_row(7, "B".to_string(), 5, "usd".to_string(), 5, 9).unwrap_err(), "ProductCurrency");
    assert_eq!(Product::from_row(7, "B".to_string(), 5, "USD".to_string(), 9, 5).unwrap_err(), "ProductTimeStamp");
}

#[test]
fn product_with_reversed_timestamps_fails_validation() {
    let mut p = Product::from_row(7, "Book".to_string(), 10, "USD".to_string(), 5, 9).unwrap();
    p.created_at = ProductTimeStamp::from_millis(10);
    assert!(matches!(p.validate(), Err(Error::InvalidProductTimeStampRelation)));
}

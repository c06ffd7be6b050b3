pub mod error;
pub mod permissions;
pub mod problem_details;
pub mod problemdet;
pub mod uuid_text;
pub mod product_id;
pub mod product_name;
pub mod product_price;
pub mod product_currency;
pub mod product_timestamp;
pub mod product;
pub mod repository;
pub mod usecases;
pub mod http_errors;
pub mod errcodes;
pub mod random;
pub mod identity;
pub mod key_set;
pub mod jwt;
pub mod handlers;

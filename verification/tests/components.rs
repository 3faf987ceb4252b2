use order_crud_api::config::{AppConfig, ConfigError};
use order_crud_api::digits::{i32_to_string, parse_u64, u32_to_string};
use order_crud_api::errors::ApiError;
use order_crud_api::models::{CreateOrderRequest, Order, OrderStatus, UpdateOrderRequest};
use order_crud_api::money::{Money, MANTISSA_LIMIT};
use order_crud_api::repository::{merge_order, OrderRepository, RepositoryError};
use order_crud_api::service::ServiceError;
use order_crud_api::validate::{validate_create, validate_update, FieldViolation};

fn order(now: i64) -> Order {
    Order {
        id: 1,
        customer_name: "Alice".to_string(),
        product_name: "Widget".to_string(),
        quantity: 3,
        unit_price: Money::new(999, 2),
        total_amount: Money::new(2997, 2),
        order_date: now,
        status: OrderStatus::Pending,
        created_at: now,
        updated_at: now,
    }
}

fn empty_update() -> UpdateOrderRequest {
    UpdateOrderRequest {
        customer_name: None,
        product_name: None,
        quantity: None,
        unit_price: None,
        status: None,
    }
}

#[test]
fn money_times_quantity_is_exact() {
    let price = Money::new(999, 2);
    let total = price.times_quantity(3);
    assert_eq!(total, Money::new(2997, 2));
    let one = Money::new(1, 0);
    assert_eq!(one.times_quantity(7), Money::new(7, 0));
}

#[test]
fn money_times_quantity_never_overflows_within_bounds() {
    let price = Money::new(MANTISSA_LIMIT - 1, 28);
    let total = price.times_quantity(i32::MAX);
    assert_eq!(total.mantissa, (MANTISSA_LIMIT - 1) * i32::MAX as i128);
    assert_eq!(total.scale, 28);
}

#[test]
fn money_price_validity() {
    assert!(Money::new(1, 0).check_valid_price());
    assert!(Money::new(999, 2).check_valid_price());
    assert!(!Money::new(0, 2).check_valid_price());
    assert!(!Money::new(-5, 2).check_valid_price());
    assert!(!Money::new(1, 29).check_valid_price());
}

#[test]
fn validation_collects_violations_in_field_order() {
    let request = CreateOrderRequest {
        customer_name: String::new(),
        product_name: "x".repeat(101),
        quantity: 0,
        unit_price: Money::new(0, 2),
    };
    let violations = validate_create(&request);
    assert_eq!(
        violations,
        vec![
            FieldViolation::CustomerNameLength,
            FieldViolation::ProductNameLength,
            FieldViolation::QuantityRange,
            FieldViolation::UnitPriceRange,
        ]
    );
}

#[test]
fn validation_accepts_boundary_name_lengths() {
    let request = CreateOrderRequest {
        customer_name: "x".to_string(),
        product_name: "y".repeat(100),
        quantity: 1,
        unit_price: Money::new(1, 2),
    };
    assert!(validate_create(&request).is_empty());
}

#[test]
fn validation_counts_characters_not_bytes() {
    let request = CreateOrderRequest {
        customer_name: "é".repeat(100),
        product_name: "Widget".to_string(),
        quantity: 1,
        unit_price: Money::new(1, 2),
    };
    assert!(validate_create(&request).is_empty());
}

#[test]
fn update_validation_ignores_absent_fields() {
    assert!(validate_update(&empty_update()).is_empty());
    let mut update = empty_update();
    update.unit_price = Some(Money::new(0, 2));
    assert_eq!(validate_update(&update), vec![FieldViolation::UnitPriceRange]);
}

#[test]
fn repository_assigns_increasing_ids() {
    let mut repo = OrderRepository::new();
    let request = CreateOrderRequest {
        customer_name: "Alice".to_string(),
        product_name: "Widget".to_string(),
        quantity: 1,
        unit_price: Money::new(100, 2),
    };
    let first = repo.create(request, 1).unwrap();
    let request = CreateOrderRequest {
        customer_name: "Bob".to_string(),
        product_name: "Gadget".to_string(),
        quantity: 2,
        unit_price: Money::new(200, 2),
    };
    let second = repo.create(request, 2).unwrap();
    assert_eq!(first.id, 1);
    assert_eq!(second.id, 2);
    assert_eq!(repo.find_by_id(1).unwrap(), first);
    assert_eq!(repo.find_by_id(3), None);
    assert!(repo.delete(1));
    assert!(!repo.delete(1));
    assert_eq!(repo.find_by_id(1), None);
}

#[test]
fn repository_update_of_missing_row_is_row_not_found() {
    let mut repo = OrderRepository::new();
    assert_eq!(
        repo.update(5, empty_update(), 1),
        Err(RepositoryError::RowNotFound)
    );
}

#[test]
fn lost_update_race_is_observable_in_merge_semantics() {
    // Two read-modify-write cycles that both start from the same snapshot:
    // the first writes a new customer name, the second a new quantity. The
    // later whole-row write wins, so the name change of the first is lost.
    let snapshot = order(100);

    let mut rename = empty_update();
    rename.customer_name = Some("Bob".to_string());
    let merged_first = merge_order(&snapshot, rename, 200);
    assert_eq!(merged_first.customer_name, "Bob");

    let mut requantify = empty_update();
    requantify.quantity = Some(7);
    let merged_second = merge_order(&snapshot, requantify, 300);
    assert_eq!(merged_second.quantity, 7);
    // The second writer never saw the first write: its row restores the
    // original customer name.
    assert_eq!(merged_second.customer_name, "Alice");
    assert_eq!(merged_second.total_amount, Money::new(6993, 2));
}

#[test]
fn digits_render_and_parse() {
    assert_eq!(u32_to_string(0), "0");
    assert_eq!(u32_to_string(12345), "12345");
    assert_eq!(u32_to_string(u32::MAX), "4294967295");
    assert_eq!(i32_to_string(-5), "-5");
    assert_eq!(i32_to_string(0), "0");
    assert_eq!(i32_to_string(i32::MIN), "-2147483648");
    assert_eq!(i32_to_string(i32::MAX), "2147483647");

    assert_eq!(parse_u64("0"), Some(0));
    assert_eq!(parse_u64("007"), Some(7));
    assert_eq!(parse_u64("18446744073709551615"), Some(u64::MAX));
    assert_eq!(parse_u64("18446744073709551616"), None);
    assert_eq!(parse_u64(""), None);
    assert_eq!(parse_u64("12a"), None);
    assert_eq!(parse_u64("-3"), None);
}

#[test]
fn config_defaults_apply_when_unset() {
    let config = AppConfig::from_parts(None, None, None, None, None).unwrap();
    assert_eq!(config.database_url, "sqlite:orders.db");
    assert_eq!(config.status_endpoint, "https://mock.com/api/process/status");
    assert_eq!(config.server_port, 3000);
    assert_eq!(config.connection_pool_size, 10);
    assert_eq!(config.request_timeout_secs, 30);
}

#[test]
fn config_reads_supplied_settings() {
    let config = AppConfig::from_parts(
        Some("sqlite:other.db".to_string()),
        Some("https://example.com/status".to_string()),
        Some("8080".to_string()),
        Some("25".to_string()),
        Some("60".to_string()),
    )
    .unwrap();
    assert_eq!(config.database_url, "sqlite:other.db");
    assert_eq!(config.status_endpoint, "https://example.com/status");
    assert_eq!(config.server_port, 8080);
    assert_eq!(config.connection_pool_size, 25);
    assert_eq!(config.request_timeout_secs, 60);
}

#[test]
fn config_rejects_unreadable_numbers_in_field_order() {
    assert_eq!(
        AppConfig::from_parts(None, None, Some("70000".to_string()), None, None),
        Err(ConfigError::InvalidServerPort)
    );
    assert_eq!(
        AppConfig::from_parts(None, None, Some("x".to_string()), Some("y".to_string()), None),
        Err(ConfigError::InvalidServerPort)
    );
    assert_eq!(
        AppConfig::from_parts(None, None, None, Some("abc".to_string()), None),
        Err(ConfigError::InvalidPoolSize)
    );
    assert_eq!(
        AppConfig::from_parts(None, None, None, None, Some("".to_string())),
        Err(ConfigError::InvalidTimeout)
    );
}

#[test]
fn api_error_mapping_is_exhaustive() {
    let (code, msg) =
        ApiError::Service(ServiceError::OrderNotFound { id: 999 }).into_response();
    assert_eq!(code, 404);
    assert_eq!(msg, "Order with id 999 not found");

    let (code, msg) =
        ApiError::Service(ServiceError::Validation("quantity".to_string())).into_response();
    assert_eq!(code, 400);
    assert_eq!(msg, "Validation error: quantity");

    let (code, msg) = ApiError::Service(ServiceError::Repository(
        RepositoryError::Database("boom".to_string()),
    ))
    .into_response();
    assert_eq!(code, 500);
    assert_eq!(msg, "Internal server error");

    let (code, msg) = ApiError::Service(ServiceError::StatusReporting("late".to_string()))
        .into_response();
    assert_eq!(code, 500);
    assert_eq!(msg, "Internal server error");

    let (code, msg) = ApiError::Validation("body".to_string()).into_response();
    assert_eq!(code, 400);
    assert_eq!(msg, "Validation error: body");

    let (code, msg) = ApiError::DatabaseConnection.into_response();
    assert_eq!(code, 503);
    assert_eq!(msg, "Service temporarily unavailable");

    let (code, msg) = ApiError::Internal.into_response();
    assert_eq!(code, 500);
    assert_eq!(msg, "Internal server error");
}

#[test]
fn service_error_messages() {
    assert_eq!(
        ServiceError::OrderNotFound { id: 3 }.message(),
        "Order not found with id: 3"
    );
    assert_eq!(
        ServiceError::Validation("bad".to_string()).message(),
        "Validation error: bad"
    );
    assert_eq!(
        ServiceError::Repository(RepositoryError::RowNotFound).message(),
        "Repository error: Database error: row not found"
    );
    assert_eq!(
        ServiceError::StatusReporting("timeout".to_string()).message(),
        "Status reporting failed: timeout"
    );
    assert_eq!(
        RepositoryError::Pool("exhausted".to_string()).message(),
        "Connection pool error: exhausted"
    );
}

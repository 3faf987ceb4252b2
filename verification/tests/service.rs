use order_crud_api::models::{CreateOrderRequest, OrderStatus, UpdateOrderRequest};
use order_crud_api::money::Money;
use order_crud_api::repository::OrderRepository;
use order_crud_api::service::{OrderService, ServiceError};

fn service() -> OrderService {
    OrderService::new(OrderRepository::new())
}

fn create_request(customer: &str, product: &str, quantity: i32, price: Money) -> CreateOrderRequest {
    CreateOrderRequest {
        customer_name: customer.to_string(),
        product_name: product.to_string(),
        quantity,
        unit_price: price,
    }
}

fn empty_update() -> UpdateOrderRequest {
    UpdateOrderRequest {
        customer_name: None,
        product_name: None,
        quantity: None,
        unit_price: None,
        status: None,
    }
}

#[test]
fn create_computes_total_and_defaults_status() {
    let mut service = service();
    let request = create_request("Alice", "Widget", 3, Money::new(999, 2));
    let (result, report) = service.create_order_at(request, 1_000);
    let order = result.expect("creation must succeed");
    assert_eq!(order.id, 1);
    assert_eq!(order.customer_name, "Alice");
    assert_eq!(order.product_name, "Widget");
    assert_eq!(order.quantity, 3);
    assert_eq!(order.unit_price, Money::new(999, 2));
    assert_eq!(order.total_amount, Money::new(2997, 2));
    assert_eq!(order.status, OrderStatus::Pending);
    assert_eq!(order.order_date, 1_000);
    assert_eq!(order.created_at, 1_000);
    assert_eq!(order.updated_at, 1_000);
    assert_eq!(report.operation, "create_order");
    assert!(report.success);
    assert_eq!(report.order_id, Some(1));
    assert_eq!(report.details, None);
    assert_eq!(report.timestamp, 1_000);
}

#[test]
fn get_after_create_rereads_equal_entity() {
    let mut service = service();
    let request = create_request("Alice", "Widget", 3, Money::new(999, 2));
    let (result, _) = service.create_order_at(request, 1_000);
    let created = result.unwrap();
    let (reread, report) = service.get_order_at(created.id, 2_000);
    assert_eq!(reread.unwrap(), created);
    assert!(report.success);
    assert_eq!(report.order_id, Some(1));
}

#[test]
fn get_missing_id_yields_not_found() {
    let service = service();
    let (result, report) = service.get_order_at(999, 5);
    assert_eq!(result, Err(ServiceError::OrderNotFound { id: 999 }));
    assert_eq!(report.operation, "get_order");
    assert!(!report.success);
    assert_eq!(report.order_id, Some(999));
    assert_eq!(report.details, Some("Order not found with id: 999".to_string()));
}

#[test]
fn partial_update_recomputes_total_and_keeps_other_fields() {
    let mut service = service();
    let request = create_request("Alice", "Widget", 3, Money::new(999, 2));
    let (result, _) = service.create_order_at(request, 1_000);
    let created = result.unwrap();

    let mut update = empty_update();
    update.quantity = Some(5);
    let (result, report) = service.update_order_at(created.id, update, 2_000);
    let updated = result.expect("update must succeed");
    assert_eq!(updated.quantity, 5);
    assert_eq!(updated.unit_price, Money::new(999, 2));
    assert_eq!(updated.total_amount, Money::new(4995, 2));
    assert_eq!(updated.customer_name, "Alice");
    assert_eq!(updated.product_name, "Widget");
    assert_eq!(updated.id, created.id);
    assert_eq!(updated.order_date, 1_000);
    assert_eq!(updated.created_at, 1_000);
    assert_eq!(updated.updated_at, 2_000);
    assert_eq!(updated.status, OrderStatus::Pending);
    assert!(report.success);
    assert_eq!(report.operation, "update_order");

    let (reread, _) = service.get_order_at(created.id, 3_000);
    assert_eq!(reread.unwrap(), updated);
}

#[test]
fn update_can_replace_status_and_price() {
    let mut service = service();
    let (result, _) =
        service.create_order_at(create_request("Alice", "Widget", 2, Money::new(500, 2)), 10);
    let created = result.unwrap();

    let mut update = empty_update();
    update.unit_price = Some(Money::new(250, 2));
    update.status = Some(OrderStatus::Shipped);
    let (result, _) = service.update_order_at(created.id, update, 20);
    let updated = result.unwrap();
    assert_eq!(updated.unit_price, Money::new(250, 2));
    assert_eq!(updated.quantity, 2);
    assert_eq!(updated.total_amount, Money::new(500, 2));
    assert_eq!(updated.status, OrderStatus::Shipped);
}

#[test]
fn update_missing_id_yields_not_found() {
    let mut service = service();
    let mut update = empty_update();
    update.quantity = Some(5);
    let (result, report) = service.update_order_at(42, update, 7);
    assert_eq!(result, Err(ServiceError::OrderNotFound { id: 42 }));
    assert!(!report.success);
    assert_eq!(report.order_id, Some(42));
    assert_eq!(report.details, Some("Order not found with id: 42".to_string()));
}

#[test]
fn update_with_invalid_field_is_rejected_before_store() {
    let mut service = service();
    let (result, _) =
        service.create_order_at(create_request("Alice", "Widget", 2, Money::new(500, 2)), 10);
    let created = result.unwrap();

    let mut update = empty_update();
    update.quantity = Some(0);
    let (result, report) = service.update_order_at(created.id, update, 20);
    match result {
        Err(ServiceError::Validation(msg)) => {
            assert_eq!(msg, "Validation failed: Quantity must be at least 1");
        }
        other => panic!("expected a validation failure, got {:?}", other),
    }
    assert!(!report.success);

    let (reread, _) = service.get_order_at(created.id, 30);
    assert_eq!(reread.unwrap(), created);
}

#[test]
fn delete_then_get_yields_not_found() {
    let mut service = service();
    let (result, _) =
        service.create_order_at(create_request("Alice", "Widget", 1, Money::new(100, 2)), 1);
    let created = result.unwrap();

    let (deleted, report) = service.delete_order_at(created.id, 2);
    assert_eq!(deleted, Ok(()));
    assert!(report.success);
    assert_eq!(report.order_id, Some(created.id));

    let (reread, _) = service.get_order_at(created.id, 3);
    assert_eq!(reread, Err(ServiceError::OrderNotFound { id: created.id }));

    let (deleted_again, report) = service.delete_order_at(created.id, 4);
    assert_eq!(deleted_again, Err(ServiceError::OrderNotFound { id: created.id }));
    assert!(!report.success);
}

#[test]
fn delete_never_created_id_yields_not_found() {
    let mut service = service();
    let (result, report) = service.delete_order_at(7, 1);
    assert_eq!(result, Err(ServiceError::OrderNotFound { id: 7 }));
    assert!(!report.success);
    assert_eq!(report.details, Some("Order not found with id: 7".to_string()));
}

#[test]
fn invalid_create_is_rejected_with_failure_report_and_no_row() {
    let mut service = service();
    let request = create_request("Alice", "Widget", 0, Money::new(999, 2));
    let (result, report) = service.create_order_at(request, 1_000);
    match result {
        Err(ServiceError::Validation(msg)) => {
            assert_eq!(msg, "Validation failed: Quantity must be at least 1");
        }
        other => panic!("expected a validation failure, got {:?}", other),
    }
    assert_eq!(report.operation, "create_order");
    assert!(!report.success);
    assert_eq!(report.order_id, None);
    assert_eq!(
        report.details,
        Some("Validation failed: Quantity must be at least 1".to_string())
    );

    let (orders, _) = service.get_orders_at(2_000);
    assert_eq!(orders.unwrap().len(), 0);
}

#[test]
fn invalid_create_reports_every_violation() {
    let mut service = service();
    let request = create_request("", "Widget", 0, Money::new(0, 2));
    let (result, _) = service.create_order_at(request, 1);
    match result {
        Err(ServiceError::Validation(msg)) => {
            assert_eq!(
                msg,
                "Validation failed: Customer name must be between 1 and 100 characters; \
                 Quantity must be at least 1; Unit price must be greater than 0"
            );
        }
        other => panic!("expected a validation failure, got {:?}", other),
    }
}

#[test]
fn list_returns_most_recently_created_first() {
    let mut service = service();
    for (name, now) in [("first", 10i64), ("second", 20), ("third", 30)] {
        let (result, _) =
            service.create_order_at(create_request(name, "Widget", 1, Money::new(100, 2)), now);
        result.unwrap();
    }
    let (orders, report) = service.get_orders_at(40);
    let orders = orders.unwrap();
    assert_eq!(orders.len(), 3);
    assert_eq!(orders[0].customer_name, "third");
    assert_eq!(orders[1].customer_name, "second");
    assert_eq!(orders[2].customer_name, "first");
    assert_eq!(orders[0].id, 3);
    assert_eq!(orders[2].id, 1);
    assert_eq!(report.operation, "get_orders");
    assert!(report.success);
    assert_eq!(report.order_id, None);
}

#[test]
fn empty_list_is_success() {
    let service = service();
    let (orders, report) = service.get_orders_at(1);
    assert_eq!(orders.unwrap().len(), 0);
    assert!(report.success);
    assert_eq!(report.order_id, None);
}

#[test]
fn clocked_operations_also_report_once() {
    let mut service = service();
    let (result, report) =
        service.create_order(create_request("Alice", "Widget", 2, Money::new(150, 2)));
    let order = result.unwrap();
    assert_eq!(order.total_amount, Money::new(300, 2));
    assert_eq!(report.operation, "create_order");
    assert!(report.success);

    let (_, report) = service.get_orders();
    assert_eq!(report.operation, "get_orders");
    let (_, report) = service.get_order(order.id);
    assert_eq!(report.operation, "get_order");
    let (_, report) = service.update_order(order.id, empty_update());
    assert_eq!(report.operation, "update_order");
    let (_, report) = service.delete_order(order.id);
    assert_eq!(report.operation, "delete_order");
}

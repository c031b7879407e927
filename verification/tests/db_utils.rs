use order_service::errors::ApiError;
use order_service::order::Order;
use order_service::store::create_order;
use order_service::store::delete_order;
use order_service::store::get_all_orders;
use order_service::store::get_order_by_id;
use order_service::store::update_order;
use order_service::store::update_order_status;
use order_service::table::OrderTable;

fn empty_table() -> OrderTable {
    OrderTable::new()
}

#[test]
fn test_create_and_get_order() {
    let mut table = empty_table();

    let order = Order {
        id: 1,
        item: "Test Item".to_string(),
        status: "pending".to_string(),
        quantity: 5,
    };

    // Create order
    let created = create_order(&mut table, &order).unwrap();
    assert_eq!(created.id, 1);
    assert_eq!(created.item, "Test Item");

    // Get order by ID
    let retrieved = get_order_by_id(&table, 1).unwrap().unwrap();
    assert_eq!(retrieved.id, 1);
    assert_eq!(retrieved.item, "Test Item");
    assert_eq!(retrieved.status, "pending");
    assert_eq!(retrieved.quantity, 5);
}

#[test]
fn test_get_all_orders() {
    let mut table = empty_table();

    let orders = vec![
        Order { id: 1, item: "Item 1".to_string(), status: "pending".to_string(), quantity: 1 },
        Order { id: 2, item: "Item 2".to_string(), status: "processing".to_string(), quantity: 2 },
    ];

    for order in &orders {
        create_order(&mut table, order).unwrap();
    }

    let all_orders = get_all_orders(&table).unwrap();
    assert_eq!(all_orders.len(), 2);
}

#[test]
fn test_update_order() {
    let mut table = empty_table();

    let order = Order {
        id: 1,
        item: "Original Item".to_string(),
        status: "pending".to_string(),
        quantity: 1,
    };

    create_order(&mut table, &order).unwrap();

    let updated_order = Order {
        id: 1, // This will be ignored in update
        item: "Updated Item".to_string(),
        status: "processing".to_string(),
        quantity: 2,
    };

    let result = update_order(&mut table, 1, &updated_order).unwrap();
    assert_eq!(result.item, "Updated Item");
    assert_eq!(result.status, "processing");
    assert_eq!(result.quantity, 2);
}

#[test]
fn test_update_order_status() {
    let mut table = empty_table();

    let order = Order {
        id: 1,
        item: "Test Item".to_string(),
        status: "pending".to_string(),
        quantity: 1,
    };

    create_order(&mut table, &order).unwrap();

    let updated = update_order_status(&mut table, 1, "shipped").unwrap();
    assert_eq!(updated.status, "shipped");
    assert_eq!(updated.item, "Test Item"); // Other fields unchanged
}

#[test]
fn test_delete_order() {
    let mut table = empty_table();

    let order = Order {
        id: 1,
        item: "Test Item".to_string(),
        status: "pending".to_string(),
        quantity: 1,
    };

    create_order(&mut table, &order).unwrap();

    let deleted = delete_order(&mut table, 1).unwrap();
    assert_eq!(deleted.id, 1);

    // Verify it's deleted
    let result = get_order_by_id(&table, 1).unwrap();
    assert!(result.is_none());
}

#[test]
fn test_duplicate_id_error() {
    let mut table = empty_table();

    let order = Order {
        id: 1,
        item: "Test Item".to_string(),
        status: "pending".to_string(),
        quantity: 1,
    };

    create_order(&mut table, &order).unwrap();

    // Try to create another order with the same ID
    let result = create_order(&mut table, &order);
    assert!(result.is_err());

    match result.unwrap_err() {
        ApiError::Validation(err) => {
            assert!(err.error.contains("already exists"));
            assert_eq!(err.field, Some("id".to_string()));
        }
        _ => panic!("Expected validation error"),
    }
}

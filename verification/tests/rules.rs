use order_service::errors::response_status;
use order_service::errors::ApiError;
use order_service::errors::ServerError;
use order_service::errors::ValidationError;
use order_service::order::Order;
use order_service::text::blank;
use order_service::text::decimal_string;
use order_service::text::longer_than;
use order_service::text::same_text;
use order_service::text::white_space;
use order_service::validator::known_status;
use order_service::validator::parse_status;
use order_service::validator::validate_order;
use order_service::validator::validate_status;
use order_service::validator::violation;
use order_service::validator::Rule;
use order_service::validator::Status;

fn order(id: u32, item: &str, status: &str, quantity: u32) -> Order {
    Order { id, item: item.to_string(), status: status.to_string(), quantity }
}

fn rejected(o: &Order) -> (String, Option<String>) {
    let e = validate_order(o).unwrap_err();
    (e.error, e.field)
}

#[test]
fn every_message_and_field_is_exact() {
    let expected = [
        (Rule::IdPositive, "Order ID must be greater than 0", "id"),
        (Rule::ItemPresent, "Item name cannot be empty", "item"),
        (Rule::ItemLength, "Item name cannot exceed 100 characters", "item"),
        (
            Rule::StatusKnown,
            "Status must be one of: pending, processing, shipped, delivered, cancelled",
            "status",
        ),
        (Rule::QuantityPositive, "Quantity must be greater than 0", "quantity"),
        (Rule::QuantityLimit, "Quantity cannot exceed 1000", "quantity"),
    ];
    for (rule, message, field) in expected.iter() {
        let e = violation(*rule);
        assert_eq!(e.error, *message);
        assert_eq!(e.field, Some(field.to_string()));
    }
}

#[test]
fn valid_orders_pass() {
    assert!(validate_order(&order(1, "a", "pending", 1)).is_ok());
    assert!(validate_order(&order(u32::MAX, &"z".repeat(100), "cancelled", 1000)).is_ok());
    assert!(validate_order(&order(7, "  padded  ", "delivered", 500)).is_ok());
}

#[test]
fn one_broken_rule_names_its_field() {
    assert_eq!(
        rejected(&order(0, "Widget", "pending", 5)),
        ("Order ID must be greater than 0".to_string(), Some("id".to_string()))
    );
    assert_eq!(
        rejected(&order(1, " \t\n", "pending", 5)),
        ("Item name cannot be empty".to_string(), Some("item".to_string()))
    );
    assert_eq!(
        rejected(&order(1, &"b".repeat(101), "pending", 5)),
        ("Item name cannot exceed 100 characters".to_string(), Some("item".to_string()))
    );
    assert_eq!(
        rejected(&order(1, "Widget", "unknown", 5)),
        (
            "Status must be one of: pending, processing, shipped, delivered, cancelled"
                .to_string(),
            Some("status".to_string())
        )
    );
    assert_eq!(
        rejected(&order(1, "Widget", "pending", 0)),
        ("Quantity must be greater than 0".to_string(), Some("quantity".to_string()))
    );
    assert_eq!(
        rejected(&order(1, "Widget", "pending", 1001)),
        ("Quantity cannot exceed 1000".to_string(), Some("quantity".to_string()))
    );
}

#[test]
fn the_first_broken_rule_wins() {
    // every rule broken at once
    assert_eq!(rejected(&order(0, "", "nope", 0)).1, Some("id".to_string()));
    // blank and too long at once
    assert_eq!(rejected(&order(1, &" ".repeat(101), "nope", 0)).0, "Item name cannot be empty");
    // too long, unknown status, no quantity
    assert_eq!(
        rejected(&order(1, &"c".repeat(200), "nope", 0)).0,
        "Item name cannot exceed 100 characters"
    );
    // unknown status before quantity
    assert_eq!(rejected(&order(1, "Widget", "nope", 5000)).1, Some("status".to_string()));
    assert_eq!(rejected(&order(1, "Widget", "", 0)).1, Some("status".to_string()));
}

#[test]
fn item_length_counts_characters() {
    // a hundred characters of two bytes each
    let o = Order {
        id: 1,
        item: "\u{e9}".repeat(100),
        status: "pending".to_string(),
        quantity: 5,
    };
    assert!(validate_order(&o).is_ok());
    assert_eq!(
        rejected(&order(1, &"\u{e9}".repeat(101), "pending", 5)),
        ("Item name cannot exceed 100 characters".to_string(), Some("item".to_string()))
    );
    // of three and of four bytes each
    assert!(validate_order(&order(1, &"\u{20ac}".repeat(100), "pending", 1)).is_ok());
    assert!(validate_order(&order(1, &"\u{1f600}".repeat(100), "pending", 1)).is_ok());
    assert_eq!(
        rejected(&order(1, &"\u{1f600}".repeat(101), "pending", 1)).0,
        "Item name cannot exceed 100 characters"
    );
    // white space at the ends counts
    assert!(validate_order(&order(1, &format!(" {} ", "a".repeat(98)), "pending", 1)).is_ok());
    assert_eq!(
        rejected(&order(1, &format!(" {} ", "a".repeat(99)), "pending", 1)).0,
        "Item name cannot exceed 100 characters"
    );
}

#[test]
fn longer_than_counts_characters() {
    assert!(!longer_than("", 0));
    assert!(longer_than("a", 0));
    assert!(!longer_than("abc", 3));
    assert!(longer_than("abc", 2));
    assert!(!longer_than("\u{20ac}\u{e9}\u{1f600}", 3));
    assert!(longer_than("\u{20ac}\u{e9}\u{1f600}", 2));
    assert!(!longer_than("abc", usize::MAX));
    let mut limit: usize = 0;
    while limit < 8 {
        let mut n: usize = 0;
        while n < 8 {
            assert_eq!(longer_than(&"\u{e9}".repeat(n), limit), n > limit);
            n += 1;
        }
        limit += 1;
    }
}

#[test]
fn white_space_is_what_trimming_removes() {
    let mut code: u32 = 0;
    while code <= 0x10FFFF {
        if let Some(c) = char::from_u32(code) {
            assert_eq!(white_space(c), c.is_whitespace(), "U+{:04X}", code);
        }
        code += 1;
    }
}

#[test]
fn blank_text_is_text_that_trims_to_nothing() {
    let samples = [
        "",
        " ",
        "\t\r\n",
        "\u{85}\u{a0}\u{1680}\u{2000}\u{200a}\u{2028}\u{2029}\u{202f}\u{205f}\u{3000}",
        "\u{200b}",
        "\u{180e}",
        " x ",
        "x",
        "   .",
        "\u{3000}\u{3042}",
    ];
    for s in samples.iter() {
        assert_eq!(blank(s), s.trim().is_empty(), "{:?}", s);
    }
    assert!(blank("\u{3000} \u{2003}"));
    assert!(!blank("\u{200b}"));
    assert_eq!(rejected(&order(1, "\u{3000}\u{a0}", "pending", 1)).0, "Item name cannot be empty");
    assert!(validate_order(&order(1, "\u{200b}", "pending", 1)).is_ok());
}

#[test]
fn statuses_match_letter_for_letter() {
    for s in ["pending", "processing", "shipped", "delivered", "cancelled"].iter() {
        assert!(known_status(s));
    }
    for s in ["", "Pending", "pending ", " pending", "pendin", "canceled", "shipped\n"].iter() {
        assert!(!known_status(s));
        assert!(validate_status(s).is_err());
    }
}

#[test]
fn same_text_compares_whole_strings() {
    assert!(same_text("", ""));
    assert!(same_text("shipped", "shipped"));
    assert!(!same_text("shipped", "shippee"));
    assert!(!same_text("shipped", "shippe"));
    assert!(!same_text("", "a"));
    assert!(same_text("\u{e9}t\u{e9}", "\u{e9}t\u{e9}"));
    assert!(!same_text("\u{e9}", "e"));
}

#[test]
fn numbers_are_written_in_decimal() {
    assert_eq!(decimal_string(0), "0");
    assert_eq!(decimal_string(7), "7");
    assert_eq!(decimal_string(10), "10");
    assert_eq!(decimal_string(1234567890), "1234567890");
    assert_eq!(decimal_string(u32::MAX), "4294967295");
    let mut n: u32 = 0;
    while n < 2000 {
        assert_eq!(decimal_string(n), n.to_string());
        n += 1;
    }
}

#[test]
fn each_kind_of_failure_has_its_status() {
    let v = ValidationError { error: "bad".to_string(), field: None };
    assert_eq!(v.status_code(), 400);
    let s = ServerError { error: "broken".to_string(), message: "down".to_string() };
    assert_eq!(s.status_code(), 500);
    assert_eq!(ApiError::Validation(v).status_code(), 400);
    assert_eq!(ApiError::Server(s).status_code(), 500);
    assert_eq!(ApiError::NotFound("gone".to_string()).status_code(), 404);
}

#[test]
fn an_answer_goes_out_with_its_status() {
    let served: Result<u32, ApiError> = Ok(1);
    assert_eq!(response_status(&served), 200);
    let rejected: Result<u32, ApiError> =
        Err(ApiError::Validation(ValidationError { error: "bad".to_string(), field: None }));
    assert_eq!(response_status(&rejected), 400);
    let missing: Result<u32, ApiError> = Err(ApiError::NotFound("gone".to_string()));
    assert_eq!(response_status(&missing), 404);
    let broken: Result<u32, ApiError> = Err(ApiError::Server(ServerError {
        error: "broken".to_string(),
        message: "down".to_string(),
    }));
    assert_eq!(response_status(&broken), 500);
}

#[test]
fn a_status_is_read_as_it_is_written() {
    let all = [
        (Status::Pending, "pending"),
        (Status::Processing, "processing"),
        (Status::Shipped, "shipped"),
        (Status::Delivered, "delivered"),
        (Status::Cancelled, "cancelled"),
    ];
    for (status, name) in all.iter() {
        assert_eq!(status.as_str(), *name);
        assert_eq!(parse_status(name), Some(*status));
        assert_eq!(parse_status(status.as_str()), Some(*status));
    }
    assert_eq!(parse_status("PENDING"), None);
    assert_eq!(parse_status(""), None);
    assert_eq!(parse_status("shipped "), None);
}

#[test]
fn conversion_keeps_the_failure() {
    let v = ValidationError { error: "bad".to_string(), field: Some("item".to_string()) };
    match ApiError::from(v) {
        ApiError::Validation(e) => {
            assert_eq!(e.error, "bad");
            assert_eq!(e.field, Some("item".to_string()));
        }
        _ => panic!("a validation failure stays one"),
    }
    let s = ServerError { error: "broken".to_string(), message: "down".to_string() };
    match ApiError::from(s) {
        ApiError::Server(e) => {
            assert_eq!(e.error, "broken");
            assert_eq!(e.message, "down");
        }
        _ => panic!("a storage fault stays one"),
    }
}

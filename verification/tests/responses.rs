use table_orders::models::{GenericResponse, GetItemRequest, QueryResult, Table, TableItem};
use table_orders::response_builder::{
    add_items_error_message, add_table_error_message, delete_by_id_error_message,
    delete_item_error_message, delete_table_error_message, get_items_error_message,
    get_seats_error_message, ItemErrorResponseBuilder, ItemSuccessResponseBuilder,
    TableErrorResponseBuilder, TableSuccessResponseBuilder,
};

fn affected(rows_affected: u64) -> QueryResult {
    QueryResult { rows_affected }
}

fn failed(msg: &str) -> GenericResponse {
    GenericResponse { msg: msg.to_string(), status_code: 500, rows: None }
}

fn lookup(table_id: u32, item: Option<&str>, customer_id: Option<&str>) -> GetItemRequest {
    GetItemRequest {
        table_id,
        item: item.map(|s| s.to_string()),
        customer_id: customer_id.map(|s| s.to_string()),
    }
}

#[test]
fn add_table_response_names_table_and_seats() {
    let response = affected(1).add_table_response(999, 1);
    assert_eq!(
        response.msg,
        format!("Sucessfully created new table {} with {} seats", 999, 1)
    );
    assert_eq!(response.status_code, 200);
    assert_eq!(response.rows, Some(1));
}

#[test]
fn add_table_response_for_the_round_trip_table() {
    let response = affected(1).add_table_response(42, 6);
    assert_eq!(response.msg, "Sucessfully created new table 42 with 6 seats");
}

#[test]
fn delete_table_of_an_existing_table_reports_one_row() {
    let response = affected(1).delete_table_by_id_response(999);
    assert_eq!(response.msg, "Table 999 deleted");
    assert_eq!(response.status_code, 200);
    assert_eq!(response.rows, Some(1));
}

#[test]
fn delete_table_of_a_missing_table_is_a_success_with_zero_rows() {
    let response = affected(0).delete_table_by_id_response(999);
    assert_eq!(response.msg, "Table 999 deleted");
    assert_eq!(response.status_code, 200);
    assert_eq!(response.rows, Some(0));
}

#[test]
fn delete_item_of_an_existing_item_reports_one_row() {
    let response = affected(1).delete_item_response();
    assert_eq!(response.msg, "Sucessfully deleted 1 item(s)");
    assert_eq!(response.status_code, 200);
    assert_eq!(response.rows, Some(1));
}

#[test]
fn delete_item_of_a_missing_item_is_a_success_with_zero_rows() {
    let response = affected(0).delete_item_response();
    assert_eq!(response.msg, "Sucessfully deleted 0 item(s)");
    assert_eq!(response.status_code, 200);
    assert_eq!(response.rows, Some(0));
}

#[test]
fn deleting_twice_succeeds_both_times() {
    let first = affected(1).delete_item_response();
    let second = affected(0).delete_item_response();
    assert_eq!(first.status_code, second.status_code);
    assert_eq!(first.rows, Some(1));
    assert_eq!(second.rows, Some(0));
}

#[test]
fn add_item_response_reports_what_storage_confirmed() {
    let response = affected(1).add_item_response();
    assert_eq!(response.msg, "Sucessfully added 1 item(s)");
    assert_eq!(response.status_code, 200);
    assert_eq!(response.rows, Some(1));
    let bulk = affected(16383).add_item_response();
    assert_eq!(bulk.msg, "Sucessfully added 16383 item(s)");
    assert_eq!(bulk.rows, Some(16383));
}

#[test]
fn largest_row_count_is_written_in_full() {
    let response = affected(u64::MAX).add_item_response();
    assert_eq!(response.msg, "Sucessfully added 18446744073709551615 item(s)");
    assert_eq!(response.rows, Some(u64::MAX));
}

#[test]
fn get_seats_error() {
    let error = sqlx::Error::RowNotFound;
    assert_eq!(
        TableErrorResponseBuilder::get_seats_err(&error, 999),
        failed("Error attempting to get seating information for table 999")
    );
}

#[test]
fn add_table_error() {
    let error = sqlx::Error::PoolTimedOut;
    assert_eq!(
        TableErrorResponseBuilder::add_table_err(&error, Table { id: 999, seats: 1 }),
        failed("Error when attempting to insert table 999 with 1 seats")
    );
}

#[test]
fn delete_table_error() {
    let error = sqlx::Error::PoolClosed;
    assert_eq!(
        error.delete_table_err(7),
        failed("Error when attempting to delete table 7")
    );
}

#[test]
fn get_items_error_shows_absent_filters_as_none() {
    let error = sqlx::Error::RowNotFound;
    assert_eq!(
        ItemErrorResponseBuilder::get_items_err(&error, lookup(1, None, None)),
        failed("Error when attempting to get item None for table 1 for customer None")
    );
    assert_eq!(
        ItemErrorResponseBuilder::get_items_err(&error, lookup(1, Some("Bun Cha"), None)),
        failed("Error when attempting to get item Bun Cha for table 1 for customer None")
    );
    assert_eq!(
        ItemErrorResponseBuilder::get_items_err(
            &error,
            lookup(1, Some("Bun Cha"), Some("Anthony Bourdain"))
        ),
        failed(
            "Error when attempting to get item Bun Cha for table 1 for customer Anthony Bourdain"
        )
    );
    assert_eq!(
        ItemErrorResponseBuilder::get_items_err(&error, lookup(4, None, Some("Bob"))),
        failed("Error when attempting to get item None for table 4 for customer Bob")
    );
}

#[test]
fn delete_by_id_error() {
    let error = sqlx::Error::PoolTimedOut;
    assert_eq!(
        ItemErrorResponseBuilder::delete_by_id_err(&error, 999),
        failed("Error when attempting to delete item 999")
    );
}

#[test]
fn delete_item_error() {
    let error = sqlx::Error::PoolTimedOut;
    let body = TableItem {
        table_id: 999,
        item: "Burger".to_string(),
        customer_id: Some("Bob".to_string()),
    };
    assert_eq!(
        ItemErrorResponseBuilder::delete_item_err(&error, body),
        failed("Error when attempting to delete item Burger from table 999")
    );
}

#[test]
fn add_items_error() {
    let error = sqlx::Error::WorkerCrashed;
    assert_eq!(
        ItemErrorResponseBuilder::add_items_err(&error),
        failed("Error when attempting to insert items")
    );
}

#[test]
fn error_response_does_not_depend_on_what_failed() {
    let timeout = sqlx::Error::PoolTimedOut;
    let protocol = sqlx::Error::Protocol("secret driver detail".to_string());
    let one = ItemErrorResponseBuilder::delete_by_id_err(&timeout, 5);
    let other = ItemErrorResponseBuilder::delete_by_id_err(&protocol, 5);
    assert_eq!(one, other);
    assert!(!other.msg.contains("secret"));
}

#[test]
fn error_messages_alone() {
    assert_eq!(
        get_seats_error_message(1),
        "Error attempting to get seating information for table 1"
    );
    assert_eq!(
        add_table_error_message(&Table { id: 42, seats: 6 }),
        "Error when attempting to insert table 42 with 6 seats"
    );
    assert_eq!(delete_table_error_message(0), "Error when attempting to delete table 0");
    assert_eq!(
        get_items_error_message(&lookup(10, Some("Pho"), None)),
        "Error when attempting to get item Pho for table 10 for customer None"
    );
    assert_eq!(
        delete_by_id_error_message(4294967295),
        "Error when attempting to delete item 4294967295"
    );
    assert_eq!(
        delete_item_error_message(&TableItem {
            table_id: 2,
            item: "Pho".to_string(),
            customer_id: None
        }),
        "Error when attempting to delete item Pho from table 2"
    );
    assert_eq!(add_items_error_message(), "Error when attempting to insert items");
}

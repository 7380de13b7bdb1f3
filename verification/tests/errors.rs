use table_orders::errors::{ItemErrors, TableErrors};
use table_orders::models::{GenericErrorResponse, GetItemRequest, Table, TableItem};

fn envelope(msg: &str) -> GenericErrorResponse {
    GenericErrorResponse { msg: msg.to_string(), status_code: 500 }
}

#[test]
fn item_error_envelopes() {
    let error = sqlx::Error::RowNotFound;
    assert_eq!(
        ItemErrors::get_items_err(
            &error,
            GetItemRequest { table_id: 1, item: Some("Bun Cha".to_string()), customer_id: None }
        ),
        envelope("Error when attempting to get item Bun Cha for table 1 for customer None")
    );
    assert_eq!(
        ItemErrors::delete_by_id_err(&error, 999),
        envelope("Error when attempting to delete item 999")
    );
    assert_eq!(
        ItemErrors::delete_item_err(
            &error,
            TableItem { table_id: 999, item: "Burger".to_string(), customer_id: None }
        ),
        envelope("Error when attempting to delete item Burger from table 999")
    );
    assert_eq!(
        ItemErrors::add_items_err(&error),
        envelope("Error when attempting to insert items")
    );
}

#[test]
fn table_error_envelopes() {
    let error = sqlx::Error::PoolTimedOut;
    assert_eq!(
        TableErrors::get_seats_err(&error, 999),
        envelope("Error attempting to get table 999")
    );
    assert_eq!(
        TableErrors::add_table_err(&error, Table { id: 999, seats: 1 }),
        envelope("Error when attempting to insert table 999 with 1 seats")
    );
}

#[test]
fn envelope_status_is_internal_server_error() {
    let error = sqlx::Error::PoolClosed;
    assert_eq!(TableErrors::get_seats_err(&error, 0).status_code, 500);
    assert_eq!(ItemErrors::add_items_err(&error).status_code, 500);
}

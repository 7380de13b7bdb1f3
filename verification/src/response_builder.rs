//! The response of each operation: one message and status for its success,
//! one for its failure.
//!
//! A failure never shows the driver's error: its message is made of the
//! request alone. A delete that found no row is a success like any other.

use vstd::prelude::*;
use vstd::string::StringExecFns;
use crate::models::{
    opt_text, GenericResponse, GenericResponseView, GetItemRequest, GetItemRequestView,
    QueryResult, Table, TableItem, TableItemView,
};
use crate::status::{internal_server_error_status, ok_status, INTERNAL_SERVER_ERROR, OK};
use crate::text::{append_decimal, decimal};

verus! {

/// The success envelope: status 200 and the affected-row count.
pub open spec fn success(msg: Seq<char>, rows: u64) -> GenericResponseView {
    GenericResponseView { msg, status_code: OK, rows: Some(rows) }
}

/// The error envelope: status 500 and no row count.
pub open spec fn failure(msg: Seq<char>) -> GenericResponseView {
    GenericResponseView { msg, status_code: INTERNAL_SERVER_ERROR, rows: None }
}

/// A response that reports a success: status 200, with a row count.
pub open spec fn is_success(response: GenericResponseView) -> bool {
    response.status_code == OK && response.rows is Some
}

/// A response that reports a failure: status 500, without a row count.
pub open spec fn is_failure(response: GenericResponseView) -> bool {
    response.status_code == INTERNAL_SERVER_ERROR && response.rows is None
}

/// A filter as a message shows it: its text, or `None` where it is absent.
pub open spec fn shown(filter: Option<Seq<char>>) -> Seq<char> {
    match filter {
        Some(text) => text,
        None => "None"@,
    }
}

/// The message of an insert of a table.
pub open spec fn add_table_success_text(table_id: u32, seats: u32) -> Seq<char> {
    "Sucessfully created new table "@ + decimal(table_id as nat) + " with "@ + decimal(
        seats as nat,
    ) + " seats"@
}

/// The message of a delete of a table.
pub open spec fn delete_table_success_text(table_id: u32) -> Seq<char> {
    "Table "@ + decimal(table_id as nat) + " deleted"@
}

/// The message of a delete of items: it names the count.
pub open spec fn delete_item_success_text(rows: u64) -> Seq<char> {
    "Sucessfully deleted "@ + decimal(rows as nat) + " item(s)"@
}

/// The message of a bulk insert: it names the count.
pub open spec fn add_item_success_text(rows: u64) -> Seq<char> {
    "Sucessfully added "@ + decimal(rows as nat) + " item(s)"@
}

/// The message of a failed seat lookup.
pub open spec fn get_seats_error_text(table_id: u32) -> Seq<char> {
    "Error attempting to get seating information for table "@ + decimal(table_id as nat)
}

/// The message of a failed insert of a table.
pub open spec fn add_table_error_text(table: Table) -> Seq<char> {
    "Error when attempting to insert table "@ + decimal(table.id as nat) + " with "@ + decimal(
        table.seats as nat,
    ) + " seats"@
}

/// The message of a failed delete of a table.
pub open spec fn delete_table_error_text(table_id: u32) -> Seq<char> {
    "Error when attempting to delete table "@ + decimal(table_id as nat)
}

/// The message of a failed item lookup: it names the table and both
/// filters.
pub open spec fn get_items_error_text(request: GetItemRequestView) -> Seq<char> {
    "Error when attempting to get item "@ + shown(request.item) + " for table "@ + decimal(
        request.table_id as nat,
    ) + " for customer "@ + shown(request.customer_id)
}

/// The message of a failed delete of an item by id.
pub open spec fn delete_by_id_error_text(item_id: u32) -> Seq<char> {
    "Error when attempting to delete item "@ + decimal(item_id as nat)
}

/// The message of a failed delete of an item by composite key.
pub open spec fn delete_item_error_text(key: TableItemView) -> Seq<char> {
    "Error when attempting to delete item "@ + key.item + " from table "@ + decimal(
        key.table_id as nat,
    )
}

/// The message of a failed bulk insert.
pub open spec fn add_items_error_text() -> Seq<char> {
    "Error when attempting to insert items"@
}

fn append_shown(out: &mut String, filter: &Option<String>)
    ensures
        final(out)@ == old(out)@ + shown(opt_text(*filter)),
{
    match filter {
        Some(text) => out.append(text.as_str()),
        None => out.append("None"),
    }
}

/// The success envelope with the given message and affected-row count.
pub fn success_response(msg: String, rows: u64) -> (response: GenericResponse)
    ensures
        response@ == success(msg@, rows),
{
    GenericResponse { msg, status_code: ok_status(), rows: Some(rows) }
}

/// The error envelope with the given message.
pub fn failure_response(msg: String) -> (response: GenericResponse)
    ensures
        response@ == failure(msg@),
{
    GenericResponse { msg, status_code: internal_server_error_status(), rows: None }
}

/// The message of a failed seat lookup.
pub fn get_seats_error_message(table_id: u32) -> (msg: String)
    ensures
        msg@ == get_seats_error_text(table_id),
{
    let mut msg = String::from_str("Error attempting to get seating information for table ");
    append_decimal(&mut msg, table_id as u64);
    msg
}

/// The message of a failed insert of a table.
pub fn add_table_error_message(table: &Table) -> (msg: String)
    ensures
        msg@ == add_table_error_text(*table),
{
    let mut msg = String::from_str("Error when attempting to insert table ");
    append_decimal(&mut msg, table.id as u64);
    msg.append(" with ");
    append_decimal(&mut msg, table.seats as u64);
    msg.append(" seats");
    msg
}

/// The message of a failed delete of a table.
pub fn delete_table_error_message(table_id: u32) -> (msg: String)
    ensures
        msg@ == delete_table_error_text(table_id),
{
    let mut msg = String::from_str("Error when attempting to delete table ");
    append_decimal(&mut msg, table_id as u64);
    msg
}

/// The message of a failed item lookup.
pub fn get_items_error_message(body: &GetItemRequest) -> (msg: String)
    ensures
        msg@ == get_items_error_text(body@),
{
    let mut msg = String::from_str("Error when attempting to get item ");
    append_shown(&mut msg, &body.item);
    msg.append(" for table ");
    append_decimal(&mut msg, body.table_id as u64);
    msg.append(" for customer ");
    append_shown(&mut msg, &body.customer_id);
    msg
}

/// The message of a failed delete of an item by id.
pub fn delete_by_id_error_message(item_id: u32) -> (msg: String)
    ensures
        msg@ == delete_by_id_error_text(item_id),
{
    let mut msg = String::from_str("Error when attempting to delete item ");
    append_decimal(&mut msg, item_id as u64);
    msg
}

/// The message of a failed delete of an item by composite key.
pub fn delete_item_error_message(body: &TableItem) -> (msg: String)
    ensures
        msg@ == delete_item_error_text(body@),
{
    let mut msg = String::from_str("Error when attempting to delete item ");
    msg.append(body.item.as_str());
    msg.append(" from table ");
    append_decimal(&mut msg, body.table_id as u64);
    msg
}

/// The message of a failed bulk insert.
pub fn add_items_error_message() -> (msg: String)
    ensures
        msg@ == add_items_error_text(),
{
    String::from_str("Error when attempting to insert items")
}

/// The responses to a write on tables that the storage layer carried out.
pub trait TableSuccessResponseBuilder: Sized {
    /// The number of rows that the write changed.
    spec fn affected(&self) -> u64;

    /// The response to an insert of a table.
    fn add_table_response(self, table_id: u32, seats: u32) -> (response: GenericResponse)
        ensures
            response@ == success(add_table_success_text(table_id, seats), self.affected()),
    ;

    /// The response to a delete of a table. A delete that found no table
    /// is a success too, with a count of zero.
    fn delete_table_by_id_response(self, table_id: u32) -> (response: GenericResponse)
        ensures
            response@ == success(delete_table_success_text(table_id), self.affected()),
    ;
}

impl TableSuccessResponseBuilder for QueryResult {
    open spec fn affected(&self) -> u64 {
        self.rows_affected
    }

    fn add_table_response(self, table_id: u32, seats: u32) -> (response: GenericResponse) {
        let mut msg = String::from_str("Sucessfully created new table ");
        append_decimal(&mut msg, table_id as u64);
        msg.append(" with ");
        append_decimal(&mut msg, seats as u64);
        msg.append(" seats");
        success_response(msg, self.rows_affected)
    }

    fn delete_table_by_id_response(self, table_id: u32) -> (response: GenericResponse) {
        let mut msg = String::from_str("Table ");
        append_decimal(&mut msg, table_id as u64);
        msg.append(" deleted");
        success_response(msg, self.rows_affected)
    }
}

/// The responses to a write on items that the storage layer carried out.
pub trait ItemSuccessResponseBuilder: Sized {
    /// The number of rows that the write changed.
    spec fn affected(&self) -> u64;

    /// The response to a delete of items. A delete that found no item is a
    /// success too, with a count of zero.
    fn delete_item_response(self) -> (response: GenericResponse)
        ensures
            response@ == success(delete_item_success_text(self.affected()), self.affected()),
    ;

    /// The response to a bulk insert: the count is what the storage layer
    /// confirmed, whatever was attempted.
    fn add_item_response(self) -> (response: GenericResponse)
        ensures
            response@ == success(add_item_success_text(self.affected()), self.affected()),
    ;
}

impl ItemSuccessResponseBuilder for QueryResult {
    open spec fn affected(&self) -> u64 {
        self.rows_affected
    }

    fn delete_item_response(self) -> (response: GenericResponse) {
        let mut msg = String::from_str("Sucessfully deleted ");
        append_decimal(&mut msg, self.rows_affected);
        msg.append(" item(s)");
        success_response(msg, self.rows_affected)
    }

    fn add_item_response(self) -> (response: GenericResponse) {
        let mut msg = String::from_str("Sucessfully added ");
        append_decimal(&mut msg, self.rows_affected);
        msg.append(" item(s)");
        success_response(msg, self.rows_affected)
    }
}

/// The responses to a failed operation on tables. What failed is not shown:
/// each response is made of the request alone.
pub trait TableErrorResponseBuilder {
    fn get_seats_err(&self, table_id: u32) -> (response: GenericResponse)
        ensures
            response@ == failure(get_seats_error_text(table_id)),
    ;

    fn add_table_err(&self, body: Table) -> (response: GenericResponse)
        ensures
            response@ == failure(add_table_error_text(body)),
    ;

    fn delete_table_err(&self, table_id: u32) -> (response: GenericResponse)
        ensures
            response@ == failure(delete_table_error_text(table_id)),
    ;
}

impl TableErrorResponseBuilder for sqlx::Error {
    fn get_seats_err(&self, table_id: u32) -> (response: GenericResponse) {
        failure_response(get_seats_error_message(table_id))
    }

    fn add_table_err(&self, body: Table) -> (response: GenericResponse) {
        failure_response(add_table_error_message(&body))
    }

    fn delete_table_err(&self, table_id: u32) -> (response: GenericResponse) {
        failure_response(delete_table_error_message(table_id))
    }
}

/// The responses to a failed operation on items. What failed is not shown:
/// each response is made of the request alone.
pub trait ItemErrorResponseBuilder {
    fn get_items_err(&self, body: GetItemRequest) -> (response: GenericResponse)
        ensures
            response@ == failure(get_items_error_text(body@)),
    ;

    fn delete_by_id_err(&self, item_id: u32) -> (response: GenericResponse)
        ensures
            response@ == failure(delete_by_id_error_text(item_id)),
    ;

    fn delete_item_err(&self, body: TableItem) -> (response: GenericResponse)
        ensures
            response@ == failure(delete_item_error_text(body@)),
    ;

    fn add_items_err(&self) -> (response: GenericResponse)
        ensures
            response@ == failure(add_items_error_text()),
    ;
}

impl ItemErrorResponseBuilder for sqlx::Error {
    fn get_items_err(&self, body: GetItemRequest) -> (response: GenericResponse) {
        failure_response(get_items_error_message(&body))
    }

    fn delete_by_id_err(&self, item_id: u32) -> (response: GenericResponse) {
        failure_response(delete_by_id_error_message(item_id))
    }

    fn delete_item_err(&self, body: TableItem) -> (response: GenericResponse) {
        failure_response(delete_item_error_message(&body))
    }

    fn add_items_err(&self) -> (response: GenericResponse) {
        failure_response(add_items_error_message())
    }
}

} // verus!

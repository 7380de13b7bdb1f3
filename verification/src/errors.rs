//! The bare error envelope of each operation: a message and the status,
//! for callers that carry no row count.

use vstd::prelude::*;
use vstd::string::StringExecFns;
use crate::models::{
    GenericErrorResponse, GenericErrorResponseView, GetItemRequest, Table, TableItem,
};
use crate::response_builder::{
    add_items_error_message, add_items_error_text, add_table_error_message, add_table_error_text,
    delete_by_id_error_message, delete_by_id_error_text, delete_item_error_message,
    delete_item_error_text, get_items_error_message, get_items_error_text,
};
use crate::status::{internal_server_error_status, INTERNAL_SERVER_ERROR};
use crate::text::{append_decimal, decimal};

verus! {

/// The error envelope with the given message: its status is 500.
pub open spec fn error_envelope(msg: Seq<char>) -> GenericErrorResponseView {
    GenericErrorResponseView { msg, status_code: INTERNAL_SERVER_ERROR }
}

/// The message of a failed lookup of a table.
pub open spec fn get_table_error_text(table_id: u32) -> Seq<char> {
    "Error attempting to get table "@ + decimal(table_id as nat)
}

fn envelope(msg: String) -> (response: GenericErrorResponse)
    ensures
        response@ == error_envelope(msg@),
{
    GenericErrorResponse { msg, status_code: internal_server_error_status() }
}

/// The error envelopes of the operations on items. What failed is not
/// shown: each envelope is made of the request alone.
pub trait ItemErrors {
    fn get_items_err(&self, body: GetItemRequest) -> (response: GenericErrorResponse)
        ensures
            response@ == error_envelope(get_items_error_text(body@)),
    ;

    fn delete_by_id_err(&self, item_id: u32) -> (response: GenericErrorResponse)
        ensures
            response@ == error_envelope(delete_by_id_error_text(item_id)),
    ;

    fn delete_item_err(&self, body: TableItem) -> (response: GenericErrorResponse)
        ensures
            response@ == error_envelope(delete_item_error_text(body@)),
    ;

    fn add_items_err(&self) -> (response: GenericErrorResponse)
        ensures
            response@ == error_envelope(add_items_error_text()),
    ;
}

impl ItemErrors for sqlx::Error {
    fn get_items_err(&self, body: GetItemRequest) -> (response: GenericErrorResponse) {
        envelope(get_items_error_message(&body))
    }

    fn delete_by_id_err(&self, item_id: u32) -> (response: GenericErrorResponse) {
        envelope(delete_by_id_error_message(item_id))
    }

    fn delete_item_err(&self, body: TableItem) -> (response: GenericErrorResponse) {
        envelope(delete_item_error_message(&body))
    }

    fn add_items_err(&self) -> (response: GenericErrorResponse) {
        envelope(add_items_error_message())
    }
}

/// The error envelopes of the operations on tables.
pub trait TableErrors {
    fn get_seats_err(&self, table_id: u32) -> (response: GenericErrorResponse)
        ensures
            response@ == error_envelope(get_table_error_text(table_id)),
    ;

    fn add_table_err(&self, body: Table) -> (response: GenericErrorResponse)
        ensures
            response@ == error_envelope(add_table_error_text(body)),
    ;
}

impl TableErrors for sqlx::Error {
    fn get_seats_err(&self, table_id: u32) -> (response: GenericErrorResponse) {
        let mut msg = String::from_str("Error attempting to get table ");
        append_decimal(&mut msg, table_id as u64);
        envelope(msg)
    }

    fn add_table_err(&self, body: Table) -> (response: GenericErrorResponse) {
        envelope(add_table_error_message(&body))
    }
}

} // verus!

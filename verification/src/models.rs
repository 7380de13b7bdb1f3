//! The data that crosses the service boundary, each type with its
//! mathematical view.

use vstd::prelude::*;

verus! {

/// The view of an optional string: its characters, if it is there.
pub open spec fn opt_text(text: Option<String>) -> Option<Seq<char>> {
    match text {
        Some(s) => Some(s@),
        None => None,
    }
}

/// A copy of an optional string.
pub fn clone_optional(text: &Option<String>) -> (copy: Option<String>)
    ensures
        opt_text(copy) == opt_text(*text),
{
    match text {
        Some(s) => Some(s.clone()),
        None => None,
    }
}

/// A table of the restaurant, identified by `id`.
#[derive(Debug, Clone, Copy, PartialEq, Eq, Structural)]
pub struct Table {
    pub id: u32,
    pub seats: u32,
}

/// The filter of an item lookup: the table, and optionally an item name or a
/// customer.
#[derive(Debug, Clone, PartialEq, Eq)]
pub struct GetItemRequest {
    pub table_id: u32,
    pub item: Option<String>,
    pub customer_id: Option<String>,
}

/// An item lookup with its texts as sequences of characters.
pub struct GetItemRequestView {
    pub table_id: u32,
    pub item: Option<Seq<char>>,
    pub customer_id: Option<Seq<char>>,
}

impl View for GetItemRequest {
    type V = GetItemRequestView;

    open spec fn view(&self) -> GetItemRequestView {
        GetItemRequestView {
            table_id: self.table_id,
            item: opt_text(self.item),
            customer_id: opt_text(self.customer_id),
        }
    }
}

/// One ordered item as a caller names it: used to add an item and to delete
/// one by its composite key.
#[derive(Debug, Clone, PartialEq, Eq)]
pub struct TableItem {
    pub table_id: u32,
    pub item: String,
    pub customer_id: Option<String>,
}

/// An item key with its texts as sequences of characters.
pub struct TableItemView {
    pub table_id: u32,
    pub item: Seq<char>,
    pub customer_id: Option<Seq<char>>,
}

impl View for TableItem {
    type V = TableItemView;

    open spec fn view(&self) -> TableItemView {
        TableItemView {
            table_id: self.table_id,
            item: self.item@,
            customer_id: opt_text(self.customer_id),
        }
    }
}

/// A batch of items to insert, in the order in which they are to be stored.
#[derive(Debug, Clone, PartialEq, Eq)]
pub struct AddItemsRequest {
    pub to_add: Vec<TableItem>,
}

impl View for AddItemsRequest {
    type V = Seq<TableItemView>;

    open spec fn view(&self) -> Seq<TableItemView> {
        self.to_add@.map_values(|t: TableItem| t@)
    }
}

/// One row of a bulk insert: a caller's record together with the cook time
/// that the service assigned to it.
#[derive(Debug, Clone, PartialEq, Eq)]
pub struct InsertRow {
    pub table_id: u32,
    pub item: String,
    pub cook_time: u8,
    pub customer_id: Option<String>,
}

/// A row of a bulk insert with its texts as sequences of characters.
pub struct InsertRowView {
    pub table_id: u32,
    pub item: Seq<char>,
    pub cook_time: u8,
    pub customer_id: Option<Seq<char>>,
}

impl View for InsertRow {
    type V = InsertRowView;

    open spec fn view(&self) -> InsertRowView {
        InsertRowView {
            table_id: self.table_id,
            item: self.item@,
            cook_time: self.cook_time,
            customer_id: opt_text(self.customer_id),
        }
    }
}

/// What a write statement reported back: the number of rows it changed.
#[derive(Debug, Clone, Copy, PartialEq, Eq, Structural)]
pub struct QueryResult {
    pub rows_affected: u64,
}

/// The response of every operation that returns no rows: a message, the
/// HTTP-style status, and the affected-row count where there is one.
#[derive(Debug, Clone, PartialEq, Eq)]
pub struct GenericResponse {
    pub msg: String,
    pub status_code: u16,
    pub rows: Option<u64>,
}

/// A response with its message as a sequence of characters.
pub struct GenericResponseView {
    pub msg: Seq<char>,
    pub status_code: u16,
    pub rows: Option<u64>,
}

impl View for GenericResponse {
    type V = GenericResponseView;

    open spec fn view(&self) -> GenericResponseView {
        GenericResponseView { msg: self.msg@, status_code: self.status_code, rows: self.rows }
    }
}

/// The error envelope: a message and the status, with no row count.
#[derive(Debug, Clone, PartialEq, Eq)]
pub struct GenericErrorResponse {
    pub msg: String,
    pub status_code: u16,
}

/// An error envelope with its message as a sequence of characters.
pub struct GenericErrorResponseView {
    pub msg: Seq<char>,
    pub status_code: u16,
}

impl View for GenericErrorResponse {
    type V = GenericErrorResponseView;

    open spec fn view(&self) -> GenericErrorResponseView {
        GenericErrorResponseView { msg: self.msg@, status_code: self.status_code }
    }
}

/// The answer to a seat lookup.
#[derive(Debug, Clone, Copy, PartialEq, Eq, Structural)]
pub struct GetSeatsResponse {
    pub seats: u32,
}

} // verus!

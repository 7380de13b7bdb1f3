//! From what the storage layer reported to what the caller is told.
//!
//! Each operation has one function here. It takes the request and the
//! result of running the operation's statement, and gives the response
//! together with the line to log, which is there exactly when the statement
//! failed.

use vstd::prelude::*;
use vstd::string::{to_string_from_display_ensures, StringExecFns};
use crate::batch::{chunk_len, COLUMNS_PER_ROW, MAX_PARAMS};
use crate::models::{
    GenericResponse, GenericResponseView, GetItemRequest, GetSeatsResponse, QueryResult, Table,
    TableItem,
};
use crate::response_builder::{
    add_item_success_text, add_items_error_text, add_table_error_text,
    add_table_success_text, delete_by_id_error_text, delete_item_error_text,
    delete_item_success_text, delete_table_error_text, delete_table_success_text, failure,
    get_items_error_text, get_seats_error_text, is_failure, is_success, success,
    ItemErrorResponseBuilder, ItemSuccessResponseBuilder, TableErrorResponseBuilder,
    TableSuccessResponseBuilder,
};

verus! {

/// The line that records a failure: the operation, the message sent to the
/// caller, and below them the driver's own words.
pub open spec fn log_text(operation: Seq<char>, msg: Seq<char>, cause: Seq<char>) -> Seq<char> {
    "=> "@ + operation + " - "@ + msg + ":\n"@ + cause
}

/// The line that records a failure.
pub fn log_line(operation: &str, msg: &str, cause: &str) -> (line: String)
    ensures
        line@ == log_text(operation@, msg@, cause@),
{
    let mut line = String::from_str("=> ");
    line.append(operation);
    line.append(" - ");
    line.append(msg);
    line.append(":\n");
    line.append(cause);
    line
}

/// What an operation ends with: the response for the caller and, after a
/// failure, the line for the operator's log.
pub struct Reply {
    pub response: GenericResponse,
    pub log: Option<String>,
}

impl Reply {
    /// The reply to an operation that the storage layer carried out: the
    /// response, and nothing to log.
    pub open spec fn accepts(&self, response: GenericResponseView) -> bool {
        &&& self.response@ == response
        &&& self.log is None
    }

    /// The reply to an operation that failed for the given cause: the
    /// response, and the log line of the operation, the response's message
    /// and the cause.
    pub open spec fn rejects(
        &self,
        operation: Seq<char>,
        response: GenericResponseView,
        cause: Seq<char>,
    ) -> bool {
        &&& self.response@ == response
        &&& self.log matches Some(line)
        &&& line@ == log_text(operation, response.msg, cause)
    }

    /// The reply to an operation that failed with a driver error: the
    /// cause in the log is the error's own text.
    pub open spec fn reports(
        &self,
        operation: Seq<char>,
        response: GenericResponseView,
        error: sqlx::Error,
    ) -> bool {
        exists|cause: String| #[trigger]
            to_string_from_display_ensures::<sqlx::Error>(&error, cause) && self.rejects(
                operation,
                response,
                cause@,
            )
    }
}

fn accepted(response: GenericResponse) -> (reply: Reply)
    ensures
        reply.accepts(response@),
{
    Reply { response, log: None }
}

/// The reply to an operation that failed for the given cause.
pub fn failure_reply(operation: &str, response: GenericResponse, cause: &str) -> (reply: Reply)
    ensures
        reply.rejects(operation@, response@, cause@),
{
    let line = log_line(operation, response.msg.as_str(), cause);
    Reply { response, log: Some(line) }
}

fn rejected(operation: &str, response: GenericResponse, error: &sqlx::Error) -> (reply: Reply)
    ensures
        reply.reports(operation@, response@, *error),
{
    let cause = error.to_string();
    let reply = failure_reply(operation, response, cause.as_str());
    assert(to_string_from_display_ensures::<sqlx::Error>(error, cause));
    reply
}

/// The end of a seat lookup: the seats of the table that was found, or the
/// reply to a lookup that failed. A table that does not exist is a failure.
pub fn get_seats_reply(table_id: u32, result: Result<Table, sqlx::Error>) -> (reply: Result<
    GetSeatsResponse,
    Reply,
>)
    ensures
        match result {
            Ok(table) => reply matches Ok(found) && found.seats == table.seats,
            Err(error) => reply matches Err(refusal) && refusal.reports(
                "get_table"@,
                failure(get_seats_error_text(table_id)),
                error,
            ),
        },
{
    match result {
        Ok(table) => Ok(GetSeatsResponse { seats: table.seats }),
        Err(error) => {
            let response = error.get_seats_err(table_id);
            Err(rejected("get_table", response, &error))
        },
    }
}

/// The end of an insert of a table. A table whose id is taken fails in the
/// storage layer, and so here.
pub fn add_table_reply(body: Table, result: Result<QueryResult, sqlx::Error>) -> (reply: Reply)
    ensures
        match result {
            Ok(done) => reply.accepts(
                success(add_table_success_text(body.id, body.seats), done.rows_affected),
            ),
            Err(error) => reply.reports("add_table"@, failure(add_table_error_text(body)), error),
        },
{
    match result {
        Ok(done) => accepted(done.add_table_response(body.id, body.seats)),
        Err(error) => {
            let response = error.add_table_err(body);
            rejected("add_table", response, &error)
        },
    }
}

/// The end of a delete of a table by id. Deleting a table that is not there
/// succeeds with a count of zero.
pub fn delete_table_by_id_reply(table_id: u32, result: Result<QueryResult, sqlx::Error>) -> (reply:
    Reply)
    ensures
        match result {
            Ok(done) => reply.accepts(
                success(delete_table_success_text(table_id), done.rows_affected),
            ),
            Err(error) => reply.reports(
                "delete_table_by_id"@,
                failure(delete_table_error_text(table_id)),
                error,
            ),
        },
{
    match result {
        Ok(done) => accepted(done.delete_table_by_id_response(table_id)),
        Err(error) => {
            let response = error.delete_table_err(table_id);
            rejected("delete_table_by_id", response, &error)
        },
    }
}

/// The end of an item lookup: the rows that were found, as they came and
/// in their order, or the reply to a lookup that failed. A lookup that
/// found no row has not failed: its answer is the empty list.
pub fn get_items_reply<Row>(body: GetItemRequest, result: Result<Vec<Row>, sqlx::Error>) -> (reply:
    Result<Vec<Row>, Reply>)
    ensures
        match result {
            Ok(rows) => reply == Ok::<Vec<Row>, Reply>(rows),
            Err(error) => reply matches Err(refusal) && refusal.reports(
                "get_item"@,
                failure(get_items_error_text(body@)),
                error,
            ),
        },
{
    match result {
        Ok(rows) => Ok(rows),
        Err(error) => {
            let response = error.get_items_err(body);
            Err(rejected("get_item", response, &error))
        },
    }
}

/// The end of a delete of an item by id. Deleting an item that is not there
/// succeeds with a count of zero.
pub fn delete_item_by_id_reply(item_id: u32, result: Result<QueryResult, sqlx::Error>) -> (reply:
    Reply)
    ensures
        match result {
            Ok(done) => reply.accepts(
                success(delete_item_success_text(done.rows_affected), done.rows_affected),
            ),
            Err(error) => reply.reports(
                "delete_item_by_id"@,
                failure(delete_by_id_error_text(item_id)),
                error,
            ),
        },
{
    match result {
        Ok(done) => accepted(done.delete_item_response()),
        Err(error) => {
            let response = error.delete_by_id_err(item_id);
            rejected("delete_item_by_id", response, &error)
        },
    }
}

/// The end of a delete of an item by composite key. Deleting an item that
/// is not there succeeds with a count of zero.
pub fn delete_item_reply(body: TableItem, result: Result<QueryResult, sqlx::Error>) -> (reply:
    Reply)
    ensures
        match result {
            Ok(done) => reply.accepts(
                success(delete_item_success_text(done.rows_affected), done.rows_affected),
            ),
            Err(error) => reply.reports(
                "delete_item"@,
                failure(delete_item_error_text(body@)),
                error,
            ),
        },
{
    match result {
        Ok(done) => accepted(done.delete_item_response()),
        Err(error) => {
            let response = error.delete_item_err(body);
            rejected("delete_item", response, &error)
        },
    }
}

/// The end of a bulk insert. The count is what the storage layer confirmed:
/// fewer rows than were sent is no failure.
pub fn add_items_reply(result: Result<QueryResult, sqlx::Error>) -> (reply: Reply)
    ensures
        match result {
            Ok(done) => reply.accepts(
                success(add_item_success_text(done.rows_affected), done.rows_affected),
            ),
            Err(error) => reply.reports("add_items"@, failure(add_items_error_text()), error),
        },
{
    match result {
        Ok(done) => accepted(done.add_item_response()),
        Err(error) => {
            let response = error.add_items_err();
            rejected("add_items", response, &error)
        },
    }
}

/// The end of a bulk insert of an empty batch, which has no statement to
/// run: nothing was to insert and nothing failed, so it is a success that
/// counts no row.
pub fn empty_batch_reply() -> (reply: Reply)
    ensures
        reply.accepts(success(add_item_success_text(0), 0)),
{
    accepted(QueryResult { rows_affected: 0 }.add_item_response())
}

/// A delete succeeds whatever it removed. One that found nothing to remove
/// ends like one that removed a row: as a success with status 200, each
/// with its own count, so deleting the same thing again is no error.
pub proof fn lemma_delete_succeeds_on_any_count(table_id: u32, rows: u64)
    ensures
        is_success(success(delete_item_success_text(rows), rows)),
        is_success(success(delete_table_success_text(table_id), rows)),
        success(delete_item_success_text(rows), rows).rows == Some(rows),
        success(delete_table_success_text(table_id), rows).rows == Some(rows),
        success(delete_item_success_text(0), 0).status_code == success(
            delete_item_success_text(1),
            1,
        ).status_code,
        success(delete_table_success_text(table_id), 0).status_code == success(
            delete_table_success_text(table_id),
            1,
        ).status_code,
{
}

/// A response is a success or a failure, never both, and a failure says
/// nothing but its message: status 500, no row count.
pub proof fn lemma_success_and_failure_differ(ok: Seq<char>, rows: u64, error: Seq<char>)
    ensures
        is_success(success(ok, rows)),
        !is_failure(success(ok, rows)),
        is_failure(failure(error)),
        !is_success(failure(error)),
        failure(error).msg == error,
{
}

/// Where the storage layer confirms every row of a batch whose parameters
/// fit the driver's limit, the response counts the whole batch. The empty
/// batch is such a batch: its response counts no row.
pub proof fn lemma_whole_batch_is_reported(total: nat, confirmed: u64)
    requires
        total * COLUMNS_PER_ROW <= MAX_PARAMS,
        confirmed == chunk_len(total),
    ensures
        confirmed == total,
        success(add_item_success_text(confirmed), confirmed).rows == Some(confirmed),
        is_success(success(add_item_success_text(confirmed), confirmed)),
{
}

} // verus!

//! Bulk insert of items under the driver's limit on bound parameters.
//!
//! One statement carries at most [`MAX_ROWS`] rows. A longer batch is cut
//! short: the statement holds its first [`MAX_ROWS`] records and the rest
//! are left out, which the caller sees in the affected-row count.

use vstd::prelude::*;
use rand::Rng;
use crate::models::{
    clone_optional, AddItemsRequest, InsertRow, InsertRowView, TableItem, TableItemView,
};
use crate::sql::{row_views, rows_values, tuple_list, SqlBuilder, Statement};
use crate::text::{lemma_placeholders_concat, lemma_plain_text, placeholders};

verus! {

/// The most parameters that MySQL lets one statement bind.
pub const MAX_PARAMS: usize = 65535;

/// The columns that an inserted item binds.
pub const COLUMNS_PER_ROW: usize = 4;

/// The most rows that one insert statement carries.
pub const MAX_ROWS: usize = MAX_PARAMS / COLUMNS_PER_ROW;

/// The shortest cook time that the service assigns.
pub const MIN_COOK_TIME: u8 = 5;

/// The longest cook time that the service assigns.
pub const MAX_COOK_TIME: u8 = 15;

/// The number of leading records of a batch of `total` that the statement
/// carries.
pub open spec fn chunk_len(total: nat) -> nat {
    if total <= MAX_ROWS {
        total
    } else {
        MAX_ROWS as nat
    }
}

/// A cook time that the service may assign.
pub open spec fn valid_cook_time(minutes: u8) -> bool {
    MIN_COOK_TIME <= minutes <= MAX_COOK_TIME
}

/// The row of a record with the cook time assigned to it.
pub open spec fn planned_row(record: TableItemView, cook_time: u8) -> InsertRowView {
    InsertRowView {
        table_id: record.table_id,
        item: record.item,
        cook_time,
        customer_id: record.customer_id,
    }
}

/// The rows of the first records of a batch, one for each cook time given,
/// in the order of the batch.
pub open spec fn planned_rows(records: Seq<TableItem>, cook_times: Seq<u8>) -> Seq<InsertRowView> {
    Seq::new(cook_times.len(), |i: int| planned_row(records[i]@, cook_times[i]))
}

/// The text that inserts `count` items.
pub open spec fn insert_items_sql(count: nat) -> Seq<char> {
    "INSERT INTO items (table_id, item, cook_time, customer_id) "@ + "VALUES "@ + tuple_list(count)
}

/// `rand::thread_rng` and `Rng::gen_range` over the inclusive range from
/// `low` to `high`: some value of that range. The generator panics on an
/// empty range.
#[verifier::external_body]
fn draw_between(low: u8, high: u8) -> (drawn: u8)
    requires
        low <= high,
    ensures
        low <= drawn <= high,
{
    rand::thread_rng().gen_range(low..=high)
}

/// The row that inserts `record` with the given cook time.
pub fn insert_row(record: &TableItem, cook_time: u8) -> (row: InsertRow)
    ensures
        row@ == planned_row(record@, cook_time),
{
    InsertRow {
        table_id: record.table_id,
        item: record.item.clone(),
        cook_time,
        customer_id: clone_optional(&record.customer_id),
    }
}

/// The statement that inserts the given rows, in their order, in one round
/// trip. There must be a row to insert, and no more rows than one statement
/// can carry.
pub fn insert_items_query(rows: Vec<InsertRow>) -> (statement: Statement)
    requires
        0 < rows@.len() <= MAX_ROWS,
    ensures
        statement.sql@ == insert_items_sql(rows@.len()),
        statement.values() == rows_values(row_views(rows@)),
        placeholders(statement.sql@) == statement.values().len(),
        statement.values().len() <= MAX_PARAMS,
{
    let ghost bound = rows_values(row_views(rows@));
    proof {
        lemma_insert_items_placeholders(row_views(rows@));
        lemma_rows_values_len(row_views(rows@));
    }
    let mut builder = SqlBuilder::new(
        "INSERT INTO items (table_id, item, cook_time, customer_id) ",
    );
    builder.push_values(rows);
    let statement = builder.finish();
    assert(statement.values() =~= bound);
    statement
}

/// A bulk insert ready to run: the statement, the cook time drawn for each
/// of its rows, and the number of records that the statement had no room
/// for.
pub struct Batch {
    pub statement: Statement,
    pub cook_times: Vec<u8>,
    pub left_out: usize,
}

impl Batch {
    /// The number of rows that the statement tries to insert.
    pub open spec fn attempted(&self) -> nat {
        self.cook_times@.len()
    }

    /// The number of rows that the statement tries to insert, to hold
    /// against the count that the storage layer confirms.
    pub fn attempted_rows(&self) -> (count: usize)
        ensures
            count == self.attempted(),
    {
        self.cook_times.len()
    }
}

/// The bulk insert of a batch of records, or `None` for an empty batch,
/// which has no statement and ends as a success that counts no row.
///
/// The statement carries the first `chunk_len` records in their order, each
/// with a cook time drawn for it alone from the range of `MIN_COOK_TIME` to
/// `MAX_COOK_TIME`. Records beyond that are not inserted.
pub fn add_items_query(body: &AddItemsRequest) -> (batch: Option<Batch>)
    ensures
        batch is None <==> body.to_add@.len() == 0,
        batch matches Some(b) ==> {
            &&& b.attempted() == chunk_len(body.to_add@.len())
            &&& b.attempted() + b.left_out == body.to_add@.len()
            &&& forall|i: int| 0 <= i < b.cook_times@.len() ==> valid_cook_time(b.cook_times@[i])
            &&& b.statement.sql@ == insert_items_sql(b.attempted())
            &&& b.statement.values() == rows_values(planned_rows(body.to_add@, b.cook_times@))
            &&& placeholders(b.statement.sql@) == b.statement.values().len()
            &&& b.statement.values().len() <= MAX_PARAMS
        },
{
    let records = &body.to_add;
    let count: usize = if records.len() <= MAX_ROWS {
        records.len()
    } else {
        MAX_ROWS
    };
    if count == 0 {
        return None;
    }
    let mut rows: Vec<InsertRow> = Vec::new();
    let mut cook_times: Vec<u8> = Vec::new();
    let mut i: usize = 0;
    while i < count
        invariant
            i <= count <= records@.len(),
            rows@.len() == i,
            cook_times@.len() == i,
            forall|k: int| 0 <= k < i ==> valid_cook_time(cook_times@[k]),
            forall|k: int|
                0 <= k < i ==> (#[trigger] rows@[k])@ == planned_row(records@[k]@, cook_times@[k]),
        decreases count - i,
    {
        let cook_time = draw_between(MIN_COOK_TIME, MAX_COOK_TIME);
        rows.push(insert_row(&records[i], cook_time));
        cook_times.push(cook_time);
        i += 1;
    }
    assert(row_views(rows@) =~= planned_rows(records@, cook_times@));
    let statement = insert_items_query(rows);
    Some(Batch { statement, cook_times, left_out: records.len() - count })
}

/// What the statement of a batch carries fits the driver's limit, and is
/// never more than the batch.
pub proof fn lemma_chunk_within_limit(total: nat)
    ensures
        chunk_len(total) * COLUMNS_PER_ROW <= MAX_PARAMS,
        chunk_len(total) <= total,
{
}

/// A batch whose parameters fit the driver's limit is carried whole.
pub proof fn lemma_small_batch_is_whole(total: nat)
    requires
        total * COLUMNS_PER_ROW <= MAX_PARAMS,
    ensures
        chunk_len(total) == total,
{
}

/// A batch whose parameters exceed the driver's limit is cut to the first
/// `MAX_ROWS` records.
pub proof fn lemma_long_batch_is_cut(total: nat)
    requires
        total * COLUMNS_PER_ROW > MAX_PARAMS,
    ensures
        chunk_len(total) == MAX_ROWS,
        chunk_len(total) < total,
{
}

/// The rows of a batch follow its records in order: the row at each place
/// has the fields of the record at that place.
pub proof fn lemma_rows_keep_order(records: Seq<TableItem>, cook_times: Seq<u8>, i: int)
    requires
        0 <= i < cook_times.len(),
    ensures
        planned_rows(records, cook_times).len() == cook_times.len(),
        planned_rows(records, cook_times)[i].table_id == records[i].table_id,
        planned_rows(records, cook_times)[i].item == records[i].item@,
        planned_rows(records, cook_times)[i].customer_id == records[i]@.customer_id,
        planned_rows(records, cook_times)[i].cook_time == cook_times[i],
{
}

/// A run of rows binds four values for each row.
pub proof fn lemma_rows_values_len(rows: Seq<InsertRowView>)
    ensures
        rows_values(rows).len() == COLUMNS_PER_ROW * rows.len(),
    decreases rows.len(),
{
    if rows.len() > 0 {
        lemma_rows_values_len(rows.drop_last());
    }
}

proof fn lemma_tuple_list_placeholders(count: nat)
    ensures
        placeholders(tuple_list(count)) == COLUMNS_PER_ROW * count,
    decreases count,
{
    let tuple = "(?, ?, ?, ?)"@;
    reveal_strlit("(?, ?, ?, ?)");
    reveal_strlit(", ");
    assert(placeholders(tuple) == 4) by {
        reveal_with_fuel(placeholders, 13);
        assert(tuple.drop_last().drop_last().drop_last().drop_last().len() == 8);
    }
    if count > 1 {
        lemma_tuple_list_placeholders((count - 1) as nat);
        lemma_plain_text(", "@);
        lemma_placeholders_concat(tuple_list((count - 1) as nat), ", "@);
        lemma_placeholders_concat(tuple_list((count - 1) as nat) + ", "@, tuple);
    }
}

/// An insert of items binds exactly as many values as its text has
/// placeholders: four for each row.
pub proof fn lemma_insert_items_placeholders(rows: Seq<InsertRowView>)
    ensures
        placeholders(insert_items_sql(rows.len())) == rows_values(rows).len(),
{
    let head = "INSERT INTO items (table_id, item, cook_time, customer_id) "@;
    reveal_strlit("INSERT INTO items (table_id, item, cook_time, customer_id) ");
    reveal_strlit("VALUES ");
    lemma_plain_text(head);
    lemma_plain_text("VALUES "@);
    lemma_placeholders_concat(head, "VALUES "@);
    lemma_placeholders_concat(head + "VALUES "@, tuple_list(rows.len()));
    lemma_tuple_list_placeholders(rows.len());
    lemma_rows_values_len(rows);
}

} // verus!

//! The statement of each operation on items and tables.
//!
//! Every value that a caller supplies travels as a bound argument. The text
//! of a statement is fixed by the operation and by which optional filters
//! are present, never by what they hold.

use vstd::prelude::*;
use crate::models::{GetItemRequest, GetItemRequestView, Table, TableItem, TableItemView};
use crate::sql::{BindValue, SqlBuilder, Statement};
use crate::text::{lemma_placeholders_concat, lemma_plain_text, placeholders};

verus! {

/// The text that selects the items of a table, newest first, optionally
/// narrowed by one further column.
pub open spec fn select_items_sql(by_item: bool, by_customer: bool) -> Seq<char> {
    "SELECT * FROM items WHERE table_id = "@ + "?"@ + (if by_item {
        " AND item = "@ + "?"@
    } else if by_customer {
        " AND customer_id = "@ + "?"@
    } else {
        Seq::empty()
    }) + " ORDER BY created_at DESC"@
}

/// The text of an item lookup. An item filter takes precedence: a customer
/// filter counts only where no item is named.
pub open spec fn get_items_sql(request: GetItemRequestView) -> Seq<char> {
    select_items_sql(request.item is Some, request.customer_id is Some)
}

/// The values of an item lookup: the table, then the one filter that counts.
pub open spec fn get_items_values(request: GetItemRequestView) -> Seq<BindValue> {
    seq![BindValue::Unsigned(request.table_id)] + (match request.item {
        Some(item) => seq![BindValue::Text(item)],
        None => match request.customer_id {
            Some(customer) => seq![BindValue::Text(customer)],
            None => Seq::empty(),
        },
    })
}

/// The statement that reads the items of a table, most recently created
/// first. With an item name it reads only that item; with a customer and no
/// item name, only that customer's items.
pub fn get_items_query(body: &GetItemRequest) -> (statement: Statement)
    ensures
        statement.sql@ == get_items_sql(body@),
        statement.values() == get_items_values(body@),
        placeholders(statement.sql@) == statement.values().len(),
{
    let mut builder = SqlBuilder::new("SELECT * FROM items WHERE table_id = ");
    builder.push_bind_unsigned(body.table_id);
    match &body.item {
        Some(item) => {
            builder.push(" AND item = ");
            builder.push_bind_text(item.clone());
        },
        None => match &body.customer_id {
            Some(customer) => {
                builder.push(" AND customer_id = ");
                builder.push_bind_text(customer.clone());
            },
            None => {},
        },
    }
    builder.push(" ORDER BY created_at DESC");
    proof {
        lemma_get_items_placeholders(body@);
    }
    builder.finish()
}

/// The text that deletes the newest row of one item at a table, optionally
/// only among one customer's rows.
pub open spec fn delete_one_sql(by_customer: bool) -> Seq<char> {
    "DELETE FROM items WHERE table_id = "@ + "?"@ + " AND item = "@ + "?"@ + (if by_customer {
        " AND customer_id = "@ + "?"@
    } else {
        Seq::empty()
    }) + " ORDER BY created_at DESC"@ + " LIMIT 1"@
}

/// The text of a delete by composite key.
pub open spec fn delete_item_sql(key: TableItemView) -> Seq<char> {
    delete_one_sql(key.customer_id is Some)
}

/// The values of a delete by composite key: the table, the item, and the
/// customer where one is named.
pub open spec fn delete_item_values(key: TableItemView) -> Seq<BindValue> {
    seq![BindValue::Unsigned(key.table_id), BindValue::Text(key.item)] + (
    match key.customer_id {
        Some(customer) => seq![BindValue::Text(customer)],
        None => Seq::empty(),
    })
}

/// The statement that deletes one item by table, name and, where given,
/// customer. Of several matching rows it removes only the one created last.
pub fn delete_item_query(body: &TableItem) -> (statement: Statement)
    ensures
        statement.sql@ == delete_item_sql(body@),
        statement.values() == delete_item_values(body@),
        placeholders(statement.sql@) == statement.values().len(),
{
    let mut builder = SqlBuilder::new("DELETE FROM items WHERE table_id = ");
    builder.push_bind_unsigned(body.table_id);
    builder.push(" AND item = ");
    builder.push_bind_text(body.item.clone());
    match &body.customer_id {
        Some(customer) => {
            builder.push(" AND customer_id = ");
            builder.push_bind_text(customer.clone());
        },
        None => {},
    }
    builder.push(" ORDER BY created_at DESC");
    builder.push(" LIMIT 1");
    proof {
        lemma_delete_item_placeholders(body@);
    }
    builder.finish()
}

/// The text that deletes an item by its id.
pub open spec fn delete_item_by_id_sql() -> Seq<char> {
    "DELETE FROM items WHERE id = "@ + "?"@
}

/// The statement that deletes the item with the given id.
pub fn delete_item_by_id_query(id: u32) -> (statement: Statement)
    ensures
        statement.sql@ == delete_item_by_id_sql(),
        statement.values() == seq![BindValue::Unsigned(id)],
        placeholders(statement.sql@) == statement.values().len(),
{
    let mut builder = SqlBuilder::new("DELETE FROM items WHERE id = ");
    builder.push_bind_unsigned(id);
    proof {
        lemma_fixed_statement_placeholders();
    }
    builder.finish()
}

/// The text that reads a table's row.
pub open spec fn get_seats_sql() -> Seq<char> {
    "SELECT id, seats FROM tables WHERE id = "@ + "?"@
}

/// The statement that reads the row of the table with the given id.
pub fn get_seats_query(table_id: u32) -> (statement: Statement)
    ensures
        statement.sql@ == get_seats_sql(),
        statement.values() == seq![BindValue::Unsigned(table_id)],
        placeholders(statement.sql@) == statement.values().len(),
{
    let mut builder = SqlBuilder::new("SELECT id, seats FROM tables WHERE id = ");
    builder.push_bind_unsigned(table_id);
    proof {
        lemma_fixed_statement_placeholders();
    }
    builder.finish()
}

/// The text that inserts one table.
pub open spec fn add_table_sql() -> Seq<char> {
    "INSERT INTO tables (id, seats) VALUES ("@ + "?"@ + ", "@ + "?"@ + ")"@
}

/// The statement that inserts a table: its id first, then its seats.
pub fn add_table_query(table: &Table) -> (statement: Statement)
    ensures
        statement.sql@ == add_table_sql(),
        statement.values() == seq![
            BindValue::Unsigned(table.id),
            BindValue::Unsigned(table.seats),
        ],
        placeholders(statement.sql@) == statement.values().len(),
{
    let mut builder = SqlBuilder::new("INSERT INTO tables (id, seats) VALUES (");
    builder.push_bind_unsigned(table.id);
    builder.push(", ");
    builder.push_bind_unsigned(table.seats);
    builder.push(")");
    proof {
        lemma_fixed_statement_placeholders();
    }
    builder.finish()
}

/// The text that deletes a table by its id.
pub open spec fn delete_table_by_id_sql() -> Seq<char> {
    "DELETE FROM tables WHERE id = "@ + "?"@
}

/// The statement that deletes the table with the given id.
pub fn delete_table_by_id_query(table_id: u32) -> (statement: Statement)
    ensures
        statement.sql@ == delete_table_by_id_sql(),
        statement.values() == seq![BindValue::Unsigned(table_id)],
        placeholders(statement.sql@) == statement.values().len(),
{
    let mut builder = SqlBuilder::new("DELETE FROM tables WHERE id = ");
    builder.push_bind_unsigned(table_id);
    proof {
        lemma_fixed_statement_placeholders();
    }
    builder.finish()
}

/// The text of an item lookup is fixed by which filters are present:
/// requests that name the same filters get the same text, whatever the
/// filters hold.
pub proof fn lemma_get_items_text_ignores_values(a: GetItemRequestView, b: GetItemRequestView)
    requires
        a.item is Some <==> b.item is Some,
        a.customer_id is Some <==> b.customer_id is Some,
    ensures
        get_items_sql(a) == get_items_sql(b),
{
}

/// The text of a delete by composite key is fixed by whether a customer is
/// named, whatever the key holds.
pub proof fn lemma_delete_item_text_ignores_values(a: TableItemView, b: TableItemView)
    requires
        a.customer_id is Some <==> b.customer_id is Some,
    ensures
        delete_item_sql(a) == delete_item_sql(b),
{
}

proof fn lemma_one_placeholder()
    ensures
        placeholders("?"@) == 1,
{
    reveal_strlit("?");
    assert("?"@.drop_last() =~= Seq::<char>::empty());
    reveal_with_fuel(placeholders, 2);
}

proof fn lemma_filter_fragments()
    ensures
        placeholders(" AND item = "@) == 0,
        placeholders(" AND customer_id = "@) == 0,
        placeholders(" ORDER BY created_at DESC"@) == 0,
        placeholders(" LIMIT 1"@) == 0,
{
    reveal_strlit(" AND item = ");
    reveal_strlit(" AND customer_id = ");
    reveal_strlit(" ORDER BY created_at DESC");
    reveal_strlit(" LIMIT 1");
    lemma_plain_text(" AND item = "@);
    lemma_plain_text(" AND customer_id = "@);
    lemma_plain_text(" ORDER BY created_at DESC"@);
    lemma_plain_text(" LIMIT 1"@);
}

/// An item lookup binds exactly as many values as its text has
/// placeholders.
pub proof fn lemma_get_items_placeholders(request: GetItemRequestView)
    ensures
        placeholders(get_items_sql(request)) == get_items_values(request).len(),
{
    let head = "SELECT * FROM items WHERE table_id = "@;
    let mark = "?"@;
    let tail = " ORDER BY created_at DESC"@;
    reveal_strlit("SELECT * FROM items WHERE table_id = ");
    lemma_plain_text(head);
    lemma_one_placeholder();
    lemma_filter_fragments();
    lemma_placeholders_concat(head, mark);
    if request.item is Some {
        let column = " AND item = "@;
        lemma_placeholders_concat(column, mark);
        lemma_placeholders_concat(head + mark, column + mark);
        lemma_placeholders_concat(head + mark + (column + mark), tail);
    } else if request.customer_id is Some {
        let column = " AND customer_id = "@;
        lemma_placeholders_concat(column, mark);
        lemma_placeholders_concat(head + mark, column + mark);
        lemma_placeholders_concat(head + mark + (column + mark), tail);
    } else {
        assert(head + mark + Seq::<char>::empty() =~= head + mark);
        lemma_placeholders_concat(head + mark, tail);
    }
}

/// A delete by composite key binds exactly as many values as its text has
/// placeholders.
pub proof fn lemma_delete_item_placeholders(key: TableItemView)
    ensures
        placeholders(delete_item_sql(key)) == delete_item_values(key).len(),
{
    let head = "DELETE FROM items WHERE table_id = "@;
    let mark = "?"@;
    let item = " AND item = "@;
    let order = " ORDER BY created_at DESC"@;
    let limit = " LIMIT 1"@;
    reveal_strlit("DELETE FROM items WHERE table_id = ");
    lemma_plain_text(head);
    lemma_one_placeholder();
    lemma_filter_fragments();
    lemma_placeholders_concat(head, mark);
    lemma_placeholders_concat(head + mark, item);
    lemma_placeholders_concat(head + mark + item, mark);
    let keyed = head + mark + item + mark;
    if key.customer_id is Some {
        let column = " AND customer_id = "@;
        lemma_placeholders_concat(column, mark);
        lemma_placeholders_concat(keyed, column + mark);
        lemma_placeholders_concat(keyed + (column + mark), order);
        lemma_placeholders_concat(keyed + (column + mark) + order, limit);
    } else {
        assert(keyed + Seq::<char>::empty() =~= keyed);
        lemma_placeholders_concat(keyed, order);
        lemma_placeholders_concat(keyed + order, limit);
    }
}

/// Each statement that takes an id binds one value for its one placeholder,
/// and the insert of a table two for its two.
pub proof fn lemma_fixed_statement_placeholders()
    ensures
        placeholders(delete_item_by_id_sql()) == 1,
        placeholders(get_seats_sql()) == 1,
        placeholders(delete_table_by_id_sql()) == 1,
        placeholders(add_table_sql()) == 2,
{
    let mark = "?"@;
    lemma_one_placeholder();
    reveal_strlit("DELETE FROM items WHERE id = ");
    reveal_strlit("SELECT id, seats FROM tables WHERE id = ");
    reveal_strlit("DELETE FROM tables WHERE id = ");
    reveal_strlit("INSERT INTO tables (id, seats) VALUES (");
    reveal_strlit(", ");
    reveal_strlit(")");
    lemma_plain_text("DELETE FROM items WHERE id = "@);
    lemma_plain_text("SELECT id, seats FROM tables WHERE id = "@);
    lemma_plain_text("DELETE FROM tables WHERE id = "@);
    lemma_plain_text("INSERT INTO tables (id, seats) VALUES ("@);
    lemma_plain_text(", "@);
    lemma_plain_text(")"@);
    lemma_placeholders_concat("DELETE FROM items WHERE id = "@, mark);
    lemma_placeholders_concat("SELECT id, seats FROM tables WHERE id = "@, mark);
    lemma_placeholders_concat("DELETE FROM tables WHERE id = "@, mark);
    let open = "INSERT INTO tables (id, seats) VALUES ("@;
    lemma_placeholders_concat(open, mark);
    lemma_placeholders_concat(open + mark, ", "@);
    lemma_placeholders_concat(open + mark + ", "@, mark);
    lemma_placeholders_concat(open + mark + ", "@ + mark, ")"@);
}

} // verus!

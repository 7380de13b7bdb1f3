use sqlx::mysql::MySqlArguments;
use sqlx::Arguments;
use table_orders::batch::{
    add_items_query, insert_items_query, insert_row, COLUMNS_PER_ROW, MAX_COOK_TIME, MAX_PARAMS,
    MAX_ROWS, MIN_COOK_TIME,
};
use table_orders::models::{AddItemsRequest, InsertRow, TableItem};

fn shown(arguments: &MySqlArguments) -> String {
    format!("{:?}", arguments)
}

fn record(table_id: u32, item: &str, customer_id: Option<&str>) -> TableItem {
    TableItem {
        table_id,
        item: item.to_string(),
        customer_id: customer_id.map(|s| s.to_string()),
    }
}

fn records(count: usize) -> Vec<TableItem> {
    let mut list = Vec::new();
    for i in 0..count {
        list.push(record(i as u32, "Burger", None));
    }
    list
}

fn insert_text(count: usize) -> String {
    let mut text =
        String::from("INSERT INTO items (table_id, item, cook_time, customer_id) VALUES ");
    for i in 0..count {
        if i > 0 {
            text.push_str(", ");
        }
        text.push_str("(?, ?, ?, ?)");
    }
    text
}

#[test]
fn limits_are_those_of_the_driver() {
    assert_eq!(MAX_PARAMS, 65535);
    assert_eq!(COLUMNS_PER_ROW, 4);
    assert_eq!(MAX_ROWS, 16383);
    assert_eq!(MAX_ROWS, 65535 / 4);
    assert!(MAX_ROWS * COLUMNS_PER_ROW <= MAX_PARAMS);
    assert!((MAX_ROWS + 1) * COLUMNS_PER_ROW > MAX_PARAMS);
    assert_eq!(MIN_COOK_TIME, 5);
    assert_eq!(MAX_COOK_TIME, 15);
}

#[test]
fn insert_row_keeps_the_record_and_the_cook_time() {
    let row = insert_row(&record(999, "Burger", Some("Bob")), 9);
    assert_eq!(
        row,
        InsertRow {
            table_id: 999,
            item: "Burger".to_string(),
            cook_time: 9,
            customer_id: Some("Bob".to_string()),
        }
    );
    let anonymous = insert_row(&record(3, "Pho", None), 15);
    assert_eq!(anonymous.customer_id, None);
    assert_eq!(anonymous.cook_time, 15);
}

#[test]
fn insert_of_one_row() {
    let statement = insert_items_query(vec![insert_row(&record(999, "Burger", Some("Bob")), 7)]);
    assert_eq!(
        statement.sql,
        "INSERT INTO items (table_id, item, cook_time, customer_id) VALUES (?, ?, ?, ?)"
    );
    let mut expected = MySqlArguments::default();
    expected.add(999u32).unwrap();
    expected.add("Burger".to_string()).unwrap();
    expected.add(7u8).unwrap();
    expected.add(Some("Bob".to_string())).unwrap();
    assert_eq!(shown(&statement.arguments), shown(&expected));
    assert_eq!(statement.arguments.len(), 4);
}

#[test]
fn insert_of_two_rows_keeps_their_order() {
    let rows = vec![
        insert_row(&record(1, "Bun Cha", Some("Anthony Bourdain")), 5),
        insert_row(&record(2, "Pho", None), 15),
    ];
    let statement = insert_items_query(rows);
    assert_eq!(
        statement.sql,
        "INSERT INTO items (table_id, item, cook_time, customer_id) \
         VALUES (?, ?, ?, ?), (?, ?, ?, ?)"
    );
    let mut expected = MySqlArguments::default();
    expected.add(1u32).unwrap();
    expected.add("Bun Cha".to_string()).unwrap();
    expected.add(5u8).unwrap();
    expected.add(Some("Anthony Bourdain".to_string())).unwrap();
    expected.add(2u32).unwrap();
    expected.add("Pho".to_string()).unwrap();
    expected.add(15u8).unwrap();
    expected.add(None::<String>).unwrap();
    assert_eq!(shown(&statement.arguments), shown(&expected));

    let mut swapped = MySqlArguments::default();
    swapped.add(2u32).unwrap();
    swapped.add("Pho".to_string()).unwrap();
    swapped.add(15u8).unwrap();
    swapped.add(None::<String>).unwrap();
    swapped.add(1u32).unwrap();
    swapped.add("Bun Cha".to_string()).unwrap();
    swapped.add(5u8).unwrap();
    swapped.add(Some("Anthony Bourdain".to_string())).unwrap();
    assert_ne!(shown(&statement.arguments), shown(&swapped));
}

#[test]
fn insert_never_writes_a_value_into_the_text() {
    let hostile = "'); DROP TABLE items; -- ?";
    let attacked = insert_items_query(vec![insert_row(&record(1, hostile, Some(hostile)), 5)]);
    let harmless = insert_items_query(vec![insert_row(&record(1, "Pho", Some("Bob")), 5)]);
    assert_eq!(attacked.sql, harmless.sql);
    assert_eq!(attacked.arguments.len(), 4);
}

#[test]
fn empty_batch_has_no_statement() {
    assert!(add_items_query(&AddItemsRequest { to_add: Vec::new() }).is_none());
}

#[test]
fn batch_of_one_record() {
    let body = AddItemsRequest { to_add: vec![record(999, "Burger", Some("Bob"))] };
    let batch = add_items_query(&body).unwrap();
    assert_eq!(batch.cook_times.len(), 1);
    let cook_time = batch.cook_times[0];
    assert!((5..=15).contains(&cook_time));
    assert_eq!(batch.statement.sql, insert_text(1));
    let mut expected = MySqlArguments::default();
    expected.add(999u32).unwrap();
    expected.add("Burger".to_string()).unwrap();
    expected.add(cook_time).unwrap();
    expected.add(Some("Bob".to_string())).unwrap();
    assert_eq!(shown(&batch.statement.arguments), shown(&expected));
}

#[test]
fn batch_binds_the_cook_time_drawn_for_each_row() {
    let list = vec![
        record(1, "Bun Cha", None),
        record(2, "Pho", Some("Bob")),
        record(3, "Banh Mi", None),
    ];
    let body = AddItemsRequest { to_add: list };
    let batch = add_items_query(&body).unwrap();
    let list = body.to_add;
    assert_eq!(batch.cook_times.len(), 3);
    assert_eq!(batch.attempted_rows(), 3);
    let mut expected = MySqlArguments::default();
    for (item, cook_time) in list.iter().zip(batch.cook_times.iter()) {
        assert!((MIN_COOK_TIME..=MAX_COOK_TIME).contains(cook_time));
        expected.add(item.table_id).unwrap();
        expected.add(item.item.clone()).unwrap();
        expected.add(*cook_time).unwrap();
        expected.add(item.customer_id.clone()).unwrap();
    }
    assert_eq!(shown(&batch.statement.arguments), shown(&expected));
    assert_eq!(batch.statement.sql, insert_text(3));
}

#[test]
fn cook_times_stay_in_range_over_many_draws() {
    let batch = add_items_query(&AddItemsRequest { to_add: records(2000) }).unwrap();
    assert_eq!(batch.cook_times.len(), 2000);
    assert!(batch.cook_times.iter().all(|t| (5..=15).contains(t)));
    assert!(batch.cook_times.iter().any(|t| *t != batch.cook_times[0]));
}

#[test]
fn batch_within_the_limit_is_carried_whole() {
    let count = 4095;
    assert!(count * 4 <= MAX_ROWS);
    let batch = add_items_query(&AddItemsRequest { to_add: records(count) }).unwrap();
    assert_eq!(batch.cook_times.len(), count);
    assert_eq!(batch.statement.arguments.len(), count * 4);
    assert_eq!(batch.statement.sql, insert_text(count));
}

#[test]
fn batch_at_the_limit_is_carried_whole() {
    let batch = add_items_query(&AddItemsRequest { to_add: records(MAX_ROWS) }).unwrap();
    assert_eq!(batch.cook_times.len(), 16383);
    assert_eq!(batch.left_out, 0);
    assert_eq!(batch.statement.arguments.len(), 65532);
    assert_eq!(batch.statement.sql, insert_text(16383));
}

#[test]
fn batch_over_the_limit_is_cut_to_its_first_rows() {
    let mut list = records(MAX_ROWS);
    list.push(record(4_000_000, "Overflow", Some("Late")));
    list.push(record(4_000_001, "Overflow", Some("Later")));
    let body = AddItemsRequest { to_add: list };
    let batch = add_items_query(&body).unwrap();
    let list = body.to_add;
    assert_eq!(batch.attempted_rows(), 16383);
    assert_eq!(batch.left_out, 2);
    assert_eq!(batch.cook_times.len(), 16383);
    assert_eq!(batch.statement.arguments.len(), 65532);
    assert_eq!(batch.statement.sql, insert_text(16383));
    assert!(batch.statement.arguments.len() <= MAX_PARAMS);

    let mut expected = MySqlArguments::default();
    for (item, cook_time) in list.iter().take(16383).zip(batch.cook_times.iter()) {
        expected.add(item.table_id).unwrap();
        expected.add(item.item.clone()).unwrap();
        expected.add(*cook_time).unwrap();
        expected.add(item.customer_id.clone()).unwrap();
    }
    assert_eq!(shown(&batch.statement.arguments), shown(&expected));
}

#[test]
fn present_customer_is_bound_as_text() {
    let statement = insert_items_query(vec![insert_row(&record(1, "Pho", Some("Bob")), 5)]);
    let mut expected = MySqlArguments::default();
    expected.add(1u32).unwrap();
    expected.add("Pho".to_string()).unwrap();
    expected.add(5u8).unwrap();
    expected.add("Bob".to_string()).unwrap();
    assert_eq!(shown(&statement.arguments), shown(&expected));
}

#[test]
fn absent_customer_is_bound_as_null() {
    let statement = insert_items_query(vec![insert_row(&record(1, "Pho", None), 5)]);
    let mut expected = MySqlArguments::default();
    expected.add(1u32).unwrap();
    expected.add("Pho".to_string()).unwrap();
    expected.add(5u8).unwrap();
    expected.add(None::<String>).unwrap();
    assert_eq!(shown(&statement.arguments), shown(&expected));

    let mut empty_text = MySqlArguments::default();
    empty_text.add(1u32).unwrap();
    empty_text.add("Pho".to_string()).unwrap();
    empty_text.add(5u8).unwrap();
    empty_text.add(String::new()).unwrap();
    assert_ne!(shown(&statement.arguments), shown(&empty_text));
}

#[test]
fn empty_batch_is_within_the_limit_and_attempts_nothing() {
    let body = AddItemsRequest { to_add: Vec::new() };
    assert!(body.to_add.len() * COLUMNS_PER_ROW <= MAX_PARAMS);
    assert!(add_items_query(&body).is_none());
}

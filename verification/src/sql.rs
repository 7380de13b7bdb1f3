//! The statement under construction, and the driver calls that build it.
//!
//! The functions of [`SqlBuilder`] but `finish` are not proved: each states
//! what the driver's query builder does, as its source shows it, over the
//! names [`builder_sql`] and [`builder_args`] for what a builder holds and
//! [`bound_values`] for what an argument list holds.

use vstd::prelude::*;
use sqlx::mysql::MySqlArguments;
use sqlx::{Execute, MySql, QueryBuilder};
use crate::models::{InsertRow, InsertRowView};

verus! {

#[verifier::external_type_specification]
#[verifier::external_body]
pub struct ExMySqlArguments(MySqlArguments);

#[verifier::external_type_specification]
#[verifier::external_body]
pub struct ExSqlxError(sqlx::Error);

/// A value bound to one placeholder of a statement, as the driver's
/// argument list holds it.
pub enum BindValue {
    /// A 32-bit unsigned integer.
    Unsigned(u32),
    /// An 8-bit unsigned integer.
    Small(u8),
    /// A text.
    Text(Seq<char>),
    /// The null that stands where a text is absent.
    NullText,
}

/// An optional text as the driver binds it: a present one exactly like a
/// plain text, an absent one as a null.
pub open spec fn optional_text(text: Option<Seq<char>>) -> BindValue {
    match text {
        Some(present) => BindValue::Text(present),
        None => BindValue::NullText,
    }
}

/// A statement under construction: `sqlx::QueryBuilder` for MySQL.
#[verifier::external_body]
pub struct SqlBuilder {
    inner: QueryBuilder<'static, MySql>,
}

/// The SQL text that a builder holds.
pub uninterp spec fn builder_sql(builder: SqlBuilder) -> Seq<char>;

/// The values bound to a builder so far, in the order of their placeholders;
/// `None` once they have been taken out.
pub uninterp spec fn builder_args(builder: SqlBuilder) -> Option<Seq<BindValue>>;

/// The values that a MySQL argument list holds, in the order in which they
/// were added.
pub uninterp spec fn bound_values(arguments: MySqlArguments) -> Seq<BindValue>;

/// The values that one row of a bulk insert binds, in column order.
pub open spec fn row_values(row: InsertRowView) -> Seq<BindValue> {
    seq![
        BindValue::Unsigned(row.table_id),
        BindValue::Text(row.item),
        BindValue::Small(row.cook_time),
        optional_text(row.customer_id),
    ]
}

/// The values that a run of rows binds: those of each row, row after row.
pub open spec fn rows_values(rows: Seq<InsertRowView>) -> Seq<BindValue>
    decreases rows.len(),
{
    if rows.len() == 0 {
        Seq::empty()
    } else {
        rows_values(rows.drop_last()) + row_values(rows.last())
    }
}

/// The placeholder tuples of `count` rows of four columns, separated by a
/// comma and a space.
pub open spec fn tuple_list(count: nat) -> Seq<char>
    decreases count,
{
    if count == 0 {
        Seq::empty()
    } else if count == 1 {
        "(?, ?, ?, ?)"@
    } else {
        tuple_list((count - 1) as nat) + ", "@ + "(?, ?, ?, ?)"@
    }
}

/// The views of a run of rows.
pub open spec fn row_views(rows: Seq<InsertRow>) -> Seq<InsertRowView> {
    rows.map_values(|row: InsertRow| row@)
}

impl SqlBuilder {
    /// `QueryBuilder::new`: a builder whose text is `init` and that holds no
    /// argument yet.
    #[verifier::external_body]
    pub(crate) fn new(init: &str) -> (builder: SqlBuilder)
        ensures
            builder_sql(builder) == init@,
            builder_args(builder) == Some(Seq::<BindValue>::empty()),
    {
        SqlBuilder { inner: QueryBuilder::new(init) }
    }

    /// `QueryBuilder::push`: appends `sql` to the text and leaves the
    /// arguments alone. The driver panics once the arguments have been taken,
    /// so the builder must still hold them.
    #[verifier::external_body]
    pub(crate) fn push(&mut self, sql: &str)
        requires
            builder_args(*old(self)) is Some,
        ensures
            builder_sql(*final(self)) == builder_sql(*old(self)) + sql@,
            builder_args(*final(self)) == builder_args(*old(self)),
    {
        self.inner.push(sql);
    }

    /// `QueryBuilder::push_bind` of an unsigned integer: adds `value` to the
    /// arguments and appends the placeholder to the text, which for MySQL is
    /// a question mark. Encoding an integer for MySQL cannot fail.
    #[verifier::external_body]
    pub(crate) fn push_bind_unsigned(&mut self, value: u32)
        requires
            builder_args(*old(self)) is Some,
        ensures
            builder_sql(*final(self)) == builder_sql(*old(self)) + "?"@,
            builder_args(*final(self)) == Some(
                builder_args(*old(self))->0.push(BindValue::Unsigned(value)),
            ),
    {
        self.inner.push_bind(value);
    }

    /// `QueryBuilder::push_bind` of a string: adds `value` to the arguments
    /// and appends the placeholder to the text. The string goes to the
    /// arguments whole, whatever it holds, and encoding it cannot fail.
    #[verifier::external_body]
    pub(crate) fn push_bind_text(&mut self, value: String)
        requires
            builder_args(*old(self)) is Some,
        ensures
            builder_sql(*final(self)) == builder_sql(*old(self)) + "?"@,
            builder_args(*final(self)) == Some(
                builder_args(*old(self))->0.push(BindValue::Text(value@)),
            ),
    {
        self.inner.push_bind(value);
    }

    /// `QueryBuilder::push_values`: appends `VALUES ` and one parenthesised
    /// tuple per row, the tuples and the placeholders inside each separated
    /// by a comma and a space, and binds each row's four columns in order.
    /// The driver encodes a present customer as it encodes any string and
    /// an absent one as a null of the same type. A debug build of the
    /// driver panics on an empty list of rows.
    #[verifier::external_body]
    pub(crate) fn push_values(&mut self, rows: Vec<InsertRow>)
        requires
            builder_args(*old(self)) is Some,
            rows@.len() > 0,
        ensures
            builder_sql(*final(self)) == builder_sql(*old(self)) + "VALUES "@ + tuple_list(
                rows@.len(),
            ),
            builder_args(*final(self)) == Some(
                builder_args(*old(self))->0 + rows_values(row_views(rows@)),
            ),
    {
        self.inner.push_values(rows, |mut tuple, row| {
            tuple.push_bind(row.table_id);
            tuple.push_bind(row.item);
            tuple.push_bind(row.cook_time);
            tuple.push_bind(row.customer_id);
        });
    }

    /// `QueryBuilder::build` and `Execute::take_arguments` on the query it
    /// returns: hands out the arguments bound so far and leaves the builder
    /// without any; the text stays.
    #[verifier::external_body]
    pub(crate) fn take_arguments(&mut self) -> (arguments: MySqlArguments)
        requires
            builder_args(*old(self)) is Some,
        ensures
            bound_values(arguments) == builder_args(*old(self))->0,
            builder_args(*final(self)) is None,
            builder_sql(*final(self)) == builder_sql(*old(self)),
    {
        self.inner.build().take_arguments().ok().flatten().unwrap_or_default()
    }

    /// `QueryBuilder::into_sql`: the text that the builder holds.
    #[verifier::external_body]
    pub(crate) fn into_sql(self) -> (sql: String)
        ensures
            sql@ == builder_sql(self),
    {
        self.inner.into_sql()
    }
}

/// A finished statement: its SQL text, and the arguments bound to the
/// placeholders in it.
pub struct Statement {
    pub sql: String,
    pub arguments: MySqlArguments,
}

impl Statement {
    /// The values bound to the statement, in the order of its placeholders.
    pub open spec fn values(&self) -> Seq<BindValue> {
        bound_values(self.arguments)
    }
}

impl SqlBuilder {
    /// Closes the builder: the statement has the builder's text and the
    /// values bound to it.
    pub(crate) fn finish(self) -> (statement: Statement)
        requires
            builder_args(self) is Some,
        ensures
            statement.sql@ == builder_sql(self),
            statement.values() == builder_args(self)->0,
    {
        let mut builder = self;
        let arguments = builder.take_arguments();
        let sql = builder.into_sql();
        Statement { sql, arguments }
    }
}

} // verus!

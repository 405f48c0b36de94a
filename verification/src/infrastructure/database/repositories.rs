use vstd::prelude::*;
use sea_query::{Alias, Expr, PostgresQueryBuilder, Query, QueryStatementWriter};
use crate::application::common::exceptions::{ApplicationException, RepoError, RepoKind};

pub mod set;
pub mod user;

verus! {

/// The code by which the database reports that a row would repeat a value
/// that must be unique.
pub const UNIQUE_VIOLATION: &'static str = "23505";

/// What the database driver reported when a statement failed.
#[derive(Debug, Clone, PartialEq, Eq)]
pub struct DriverError {
    /// Whether the statement found no row where it needed one.
    pub row_not_found: bool,
    /// The code that the database gave the failure, if the database gave
    /// it one.
    pub code: Option<String>,
    /// The failure in the driver's words.
    pub message: String,
}

impl DriverError {
    /// Whether the database reported a repeated unique value.
    pub open spec fn unique_violation(&self) -> bool {
        self.code matches Some(code) && code@ == UNIQUE_VIOLATION@
    }

    /// Whether the database reported a repeated unique value.
    pub fn is_unique_violation(&self) -> (violation: bool)
        ensures
            violation == self.unique_violation(),
    {
        match &self.code {
            Some(code) => *code == String::from_str(UNIQUE_VIOLATION),
            None => false,
        }
    }
}

/// The failure as a fault of the database, in the driver's words.
pub fn repo_error(error: DriverError) -> (fault: RepoError)
    ensures
        fault.spec_message() == error.message@,
{
    RepoError::new(error.message)
}

/// The failure as one that no rule of the application accounts for.
pub fn unexpected<RepoException: ApplicationException>(error: DriverError) -> (kind: RepoKind<
    RepoException,
>)
    ensures
        kind matches RepoKind::Unexpected(fault) && fault.spec_message() == error.message@,
{
    RepoKind::unexpected(repo_error(error))
}


/// A value that a statement hands to the database in place of a
/// placeholder.
#[derive(Debug, Clone, PartialEq, Eq)]
pub enum SqlValue {
    BigInt(i64),
    Text(String),
    Bool(bool),
}

/// A statement for the database: its text, and the values that stand for
/// the placeholders of the text, the first value for the first
/// placeholder.
#[derive(Debug, Clone, PartialEq, Eq)]
pub struct Statement {
    pub sql: String,
    pub values: Vec<SqlValue>,
}

/// Whether `value` is the number `number`.
pub open spec fn is_number(value: SqlValue, number: i64) -> bool {
    value matches SqlValue::BigInt(held) && held == number
}

/// Whether `value` is the text `text`.
pub open spec fn is_text(value: SqlValue, text: Seq<char>) -> bool {
    value matches SqlValue::Text(held) && held@ == text
}

/// Whether `value` is the flag `flag`.
pub open spec fn is_flag(value: SqlValue, flag: bool) -> bool {
    value matches SqlValue::Bool(held) && held == flag
}

/// The texts of `names`, in order.
pub open spec fn texts_of(names: Seq<&'static str>) -> Seq<Seq<char>> {
    names.map_values(|name: &'static str| name@)
}

/// The text that `sea_query` writes for Postgres to insert one row of
/// three values into `table`.
pub uninterp spec fn insert_three_sql(
    table: Seq<char>,
    first: Seq<char>,
    second: Seq<char>,
    third: Seq<char>,
    number: i64,
    text: Seq<char>,
    other_text: Seq<char>,
) -> Seq<char>;

/// The text that `sea_query` writes for Postgres to insert one row of one
/// value into `table`.
pub uninterp spec fn insert_one_sql(table: Seq<char>, column: Seq<char>, number: i64) -> Seq<char>;

/// The text that `sea_query` writes for Postgres to delete the rows of
/// `table` whose column `key` holds a text.
pub uninterp spec fn delete_by_text_sql(table: Seq<char>, key: Seq<char>, text: Seq<char>) -> Seq<
    char,
>;

/// The text that `sea_query` writes for Postgres to read `columns` of the
/// rows of `table` whose column `key` holds a number.
pub uninterp spec fn select_by_number_sql(
    table: Seq<char>,
    columns: Seq<Seq<char>>,
    key: Seq<char>,
    number: i64,
) -> Seq<char>;

/// The text that `sea_query` writes for Postgres to read `columns` of the
/// rows of `table` whose column `key` holds a number and whose column
/// `flag_column` holds a flag.
pub uninterp spec fn select_by_number_and_flag_sql(
    table: Seq<char>,
    columns: Seq<Seq<char>>,
    key: Seq<char>,
    number: i64,
    flag_column: Seq<char>,
    flag: bool,
) -> Seq<char>;

/// The text that `sea_query` writes for Postgres to read `columns` of the
/// rows of `table` whose column `key` holds a text.
pub uninterp spec fn select_by_text_sql(
    table: Seq<char>,
    columns: Seq<Seq<char>>,
    key: Seq<char>,
    text: Seq<char>,
) -> Seq<char>;

/// The text that `sea_query` writes for Postgres to set the column
/// `flag_column` of the rows of `table` whose column `key` holds a text.
pub uninterp spec fn update_flag_by_text_sql(
    table: Seq<char>,
    flag_column: Seq<char>,
    flag: bool,
    key: Seq<char>,
    text: Seq<char>,
) -> Seq<char>;

/// Writes an insert of one row of three values by `sea_query`:
/// `Query::insert`, `into_table`, `columns`, `values_panic` and `build`
/// for Postgres, of whose result this is the text. `values_panic` panics
/// where columns and values differ in number, which three and three do
/// not. The text depends on nothing but what is handed in; the values
/// stand in it as numbered placeholders, in the order given.
#[verifier::external_body]
pub(crate) fn render_insert_three(
    table: &str,
    first: &str,
    second: &str,
    third: &str,
    number: i64,
    text: &str,
    other_text: &str,
) -> (sql: String)
    ensures
        sql@ == insert_three_sql(table@, first@, second@, third@, number, text@, other_text@),
{
    Query::insert()
        .into_table(Alias::new(table))
        .columns([Alias::new(first), Alias::new(second), Alias::new(third)])
        .values_panic([number.into(), text.into(), other_text.into()])
        .build(PostgresQueryBuilder)
        .0
}

/// Writes an insert of one row of one value by `sea_query`, as
/// [`render_insert_three`] does for three.
#[verifier::external_body]
pub(crate) fn render_insert_one(table: &str, column: &str, number: i64) -> (sql: String)
    ensures
        sql@ == insert_one_sql(table@, column@, number),
{
    Query::insert()
        .into_table(Alias::new(table))
        .columns([Alias::new(column)])
        .values_panic([number.into()])
        .build(PostgresQueryBuilder)
        .0
}

/// Writes a delete by `sea_query`: `Query::delete`, `from_table`,
/// `and_where` with `Expr::col(..).eq(..)`, and `build` for Postgres, of
/// whose result this is the text. None of them panics, and the text
/// depends on nothing but what is handed in.
#[verifier::external_body]
pub(crate) fn render_delete_by_text(table: &str, key: &str, text: &str) -> (sql: String)
    ensures
        sql@ == delete_by_text_sql(table@, key@, text@),
{
    Query::delete()
        .from_table(Alias::new(table))
        .and_where(Expr::col(Alias::new(key)).eq(text))
        .build(PostgresQueryBuilder)
        .0
}

/// Writes a select by `sea_query`: `Query::select`, `columns`, `from`,
/// `and_where` with `Expr::col(..).eq(..)`, and `build` for Postgres, of
/// whose result this is the text. None of them panics, and the text
/// depends on nothing but what is handed in.
#[verifier::external_body]
pub(crate) fn render_select_by_number(
    table: &str,
    columns: &[&'static str],
    key: &str,
    number: i64,
) -> (sql: String)
    ensures
        sql@ == select_by_number_sql(table@, texts_of(columns@), key@, number),
{
    Query::select()
        .columns(columns.iter().map(|column| Alias::new(*column)))
        .from(Alias::new(table))
        .and_where(Expr::col(Alias::new(key)).eq(number))
        .build(PostgresQueryBuilder)
        .0
}

/// Writes a select with two conditions by `sea_query`, as
/// [`render_select_by_number`] does with one; the conditions stand in the
/// order given here.
#[verifier::external_body]
pub(crate) fn render_select_by_number_and_flag(
    table: &str,
    columns: &[&'static str],
    key: &str,
    number: i64,
    flag_column: &str,
    flag: bool,
) -> (sql: String)
    ensures
        sql@ == select_by_number_and_flag_sql(
            table@,
            texts_of(columns@),
            key@,
            number,
            flag_column@,
            flag,
        ),
{
    Query::select()
        .columns(columns.iter().map(|column| Alias::new(*column)))
        .from(Alias::new(table))
        .and_where(Expr::col(Alias::new(key)).eq(number))
        .and_where(Expr::col(Alias::new(flag_column)).eq(flag))
        .build(PostgresQueryBuilder)
        .0
}

/// Writes a select by `sea_query`, as [`render_select_by_number`] does,
/// for a key that holds a text.
#[verifier::external_body]
pub(crate) fn render_select_by_text(
    table: &str,
    columns: &[&'static str],
    key: &str,
    text: &str,
) -> (sql: String)
    ensures
        sql@ == select_by_text_sql(table@, texts_of(columns@), key@, text@),
{
    Query::select()
        .columns(columns.iter().map(|column| Alias::new(*column)))
        .from(Alias::new(table))
        .and_where(Expr::col(Alias::new(key)).eq(text))
        .build(PostgresQueryBuilder)
        .0
}

/// Writes an update by `sea_query`: `Query::update`, `table`, `value`,
/// `and_where` with `Expr::col(..).eq(..)`, and `build` for Postgres, of
/// whose result this is the text. None of them panics, and the text
/// depends on nothing but what is handed in; the new value takes the first
/// placeholder and the key the second.
#[verifier::external_body]
pub(crate) fn render_update_flag_by_text(
    table: &str,
    flag_column: &str,
    flag: bool,
    key: &str,
    text: &str,
) -> (sql: String)
    ensures
        sql@ == update_flag_by_text_sql(table@, flag_column@, flag, key@, text@),
{
    Query::update()
        .table(Alias::new(table))
        .value(Alias::new(flag_column), flag)
        .and_where(Expr::col(Alias::new(key)).eq(text))
        .build(PostgresQueryBuilder)
        .0
}

} // verus!

//! The statements that the library hands to the storage engine.
//!
//! A statement is a text with numbered placeholders, the values to bind to
//! them in order, and whether it is run for its rows or for its effect.
//! Opening the database, binding and stepping are the caller's part; which
//! text goes with which values is decided here.

use crate::record::{Record, RecordView};
use vstd::prelude::*;

verus! {

/// A value bound to a placeholder.
#[derive(Debug, Clone, PartialEq, Eq)]
pub enum SqlValue {
    Text(String),
    Integer(i32),
    /// A floating-point number, by its IEEE-754 bit pattern.
    Real(u64),
}

/// A bound value, with a text as a sequence of characters.
pub enum SqlValueView {
    Text(Seq<char>),
    Integer(i32),
    Real(u64),
}

impl View for SqlValue {
    type V = SqlValueView;

    open spec fn view(&self) -> SqlValueView {
        match self {
            SqlValue::Text(text) => SqlValueView::Text(text@),
            SqlValue::Integer(value) => SqlValueView::Integer(*value),
            SqlValue::Real(bits) => SqlValueView::Real(*bits),
        }
    }
}

/// One statement for the engine.
#[derive(Debug, Clone, PartialEq, Eq)]
pub struct Statement {
    pub sql: String,
    /// The values for `?1`, `?2`, ... in that order.
    pub params: Vec<SqlValue>,
    /// Whether the statement is stepped for its rows, each of the table's
    /// five columns; otherwise it is run once for its effect.
    pub returns_rows: bool,
}

/// What a statement holds.
pub struct StatementView {
    pub sql: Seq<char>,
    pub params: Seq<SqlValueView>,
    pub returns_rows: bool,
}

impl View for Statement {
    type V = StatementView;

    open spec fn view(&self) -> StatementView {
        StatementView {
            sql: self.sql@,
            params: Seq::new(self.params@.len(), |i: int| self.params@[i]@),
            returns_rows: self.returns_rows,
        }
    }
}

/// Removes the table; no error where there is none.
pub const DROP_TABLE_SQL: &'static str = "DROP TABLE IF EXISTS DrinksDB";

/// Creates the table: the country as text, three whole numbers, one
/// floating-point number. No key, no constraint.
pub const CREATE_TABLE_SQL: &'static str =
    "CREATE TABLE DrinksDB (country TEXT, beer_servings INTEGER, spirit_servings INTEGER, wine_servings INTEGER, total_litres_of_pure_alcohol REAL)";

/// Inserts one row; the placeholders follow the order of the columns.
pub const INSERT_SQL: &'static str =
    "INSERT INTO DrinksDB (country, beer_servings, spirit_servings, wine_servings, total_litres_of_pure_alcohol) VALUES (?1, ?2, ?3, ?4, ?5)";

/// Sets the four figures of the rows of one country; the country is the
/// fifth placeholder.
pub const UPDATE_SQL: &'static str =
    "UPDATE DrinksDB SET beer_servings=?1, spirit_servings=?2, wine_servings=?3, total_litres_of_pure_alcohol=?4 WHERE country=?5";

/// Removes the rows of one country.
pub const DELETE_SQL: &'static str = "DELETE FROM DrinksDB WHERE country=?1";

/// Reads every row, in no stated order.
pub const SELECT_ALL_SQL: &'static str = "SELECT * FROM DrinksDB";

/// Reads the rows of one country.
pub const SELECT_COUNTRY_SQL: &'static str = "SELECT * FROM DrinksDB WHERE country=?1";

/// A statement without placeholders.
pub open spec fn plain(sql: Seq<char>, returns_rows: bool) -> StatementView {
    StatementView { sql, params: Seq::empty(), returns_rows }
}

/// The insertion of `record`: the five columns in the table's order.
pub open spec fn insertion(record: RecordView) -> StatementView {
    StatementView {
        sql: INSERT_SQL@,
        params: seq![
            SqlValueView::Text(record.country),
            SqlValueView::Integer(record.beer_servings),
            SqlValueView::Integer(record.spirit_servings),
            SqlValueView::Integer(record.wine_servings),
            SqlValueView::Real(record.total_litres_bits),
        ],
        returns_rows: false,
    }
}

/// The update that gives every row of `record.country` the four figures
/// of `record`: the figures first, the country last, as the text numbers
/// them.
pub open spec fn update(record: RecordView) -> StatementView {
    StatementView {
        sql: UPDATE_SQL@,
        params: seq![
            SqlValueView::Integer(record.beer_servings),
            SqlValueView::Integer(record.spirit_servings),
            SqlValueView::Integer(record.wine_servings),
            SqlValueView::Real(record.total_litres_bits),
            SqlValueView::Text(record.country),
        ],
        returns_rows: false,
    }
}

/// A statement with the country as its only value.
pub open spec fn by_country(sql: Seq<char>, country: Seq<char>, returns_rows: bool) -> StatementView {
    StatementView { sql, params: seq![SqlValueView::Text(country)], returns_rows }
}

/// Builds a statement without values.
fn plain_statement(sql: &str, returns_rows: bool) -> (statement: Statement)
    ensures
        statement@ == plain(sql@, returns_rows),
{
    let statement = Statement { sql: sql.to_owned(), params: Vec::new(), returns_rows };
    assert(statement@.params =~= Seq::empty());
    statement
}

/// Builds a statement whose only value is a country.
fn country_statement(sql: &str, country: &str, returns_rows: bool) -> (statement: Statement)
    ensures
        statement@ == by_country(sql@, country@, returns_rows),
{
    let mut params: Vec<SqlValue> = Vec::new();
    params.push(SqlValue::Text(country.to_owned()));
    let statement = Statement { sql: sql.to_owned(), params, returns_rows };
    assert(statement@.params =~= seq![SqlValueView::Text(country@)]);
    statement
}

/// The statement that removes the table, if there is one.
pub fn drop_table() -> (statement: Statement)
    ensures
        statement@ == plain(DROP_TABLE_SQL@, false),
{
    plain_statement(DROP_TABLE_SQL, false)
}

/// The statement that creates the table with its five columns.
pub fn create_table() -> (statement: Statement)
    ensures
        statement@ == plain(CREATE_TABLE_SQL@, false),
{
    plain_statement(CREATE_TABLE_SQL, false)
}

/// The statement that inserts one row with the five given values. It does
/// not look for a row of the same country: the engine adds another.
pub fn create_record(
    country: &str,
    beer_servings: i32,
    spirit_servings: i32,
    wine_servings: i32,
    total_litres_bits: u64,
) -> (statement: Statement)
    ensures
        statement@ == insertion(
            RecordView {
                country: country@,
                beer_servings,
                spirit_servings,
                wine_servings,
                total_litres_bits,
            },
        ),
{
    let mut params: Vec<SqlValue> = Vec::new();
    params.push(SqlValue::Text(country.to_owned()));
    params.push(SqlValue::Integer(beer_servings));
    params.push(SqlValue::Integer(spirit_servings));
    params.push(SqlValue::Integer(wine_servings));
    params.push(SqlValue::Real(total_litres_bits));
    let statement = Statement { sql: INSERT_SQL.to_owned(), params, returns_rows: false };
    assert(statement@.params =~= seq![
        SqlValueView::Text(country@),
        SqlValueView::Integer(beer_servings),
        SqlValueView::Integer(spirit_servings),
        SqlValueView::Integer(wine_servings),
        SqlValueView::Real(total_litres_bits),
    ]);
    statement
}

/// The statement that sets the four figures of every row of `country`.
/// Where no row has that country the engine changes nothing and reports no
/// error.
pub fn update_record(
    country: &str,
    beer_servings: i32,
    spirit_servings: i32,
    wine_servings: i32,
    total_litres_bits: u64,
) -> (statement: Statement)
    ensures
        statement@ == update(
            RecordView {
                country: country@,
                beer_servings,
                spirit_servings,
                wine_servings,
                total_litres_bits,
            },
        ),
{
    let mut params: Vec<SqlValue> = Vec::new();
    params.push(SqlValue::Integer(beer_servings));
    params.push(SqlValue::Integer(spirit_servings));
    params.push(SqlValue::Integer(wine_servings));
    params.push(SqlValue::Real(total_litres_bits));
    params.push(SqlValue::Text(country.to_owned()));
    let statement = Statement { sql: UPDATE_SQL.to_owned(), params, returns_rows: false };
    assert(statement@.params =~= seq![
        SqlValueView::Integer(beer_servings),
        SqlValueView::Integer(spirit_servings),
        SqlValueView::Integer(wine_servings),
        SqlValueView::Real(total_litres_bits),
        SqlValueView::Text(country@),
    ]);
    statement
}

/// The statement that removes every row of `country`.
pub fn delete_record(country: &str) -> (statement: Statement)
    ensures
        statement@ == by_country(DELETE_SQL@, country@, false),
{
    country_statement(DELETE_SQL, country, false)
}

/// The statement that reads every row, in the engine's own order.
pub fn read_data() -> (statement: Statement)
    ensures
        statement@ == plain(SELECT_ALL_SQL@, true),
{
    plain_statement(SELECT_ALL_SQL, true)
}

/// The statement that reads the rows of `country`.
pub fn read_record(country: &str) -> (statement: Statement)
    ensures
        statement@ == by_country(SELECT_COUNTRY_SQL@, country@, true),
{
    country_statement(SELECT_COUNTRY_SQL, country, true)
}

/// The outcome of reading one country: the first of the rows that the
/// engine returned for it, or nothing where it returned none.
pub fn found_record(rows: Vec<Record>) -> (found: Option<Record>)
    ensures
        rows@.len() == 0 ==> found is None,
        rows@.len() > 0 ==> found == Some(rows@[0]),
{
    let mut rows = rows;
    if rows.len() == 0 {
        None
    } else {
        Some(rows.swap_remove(0))
    }
}

} // verus!

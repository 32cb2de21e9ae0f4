use sqlite::record::Record;
use sqlite::statement::{
    create_record, create_table, delete_record, drop_table, found_record, read_data, read_record,
    update_record, SqlValue, Statement,
};

fn record(country: &str, beer: i32) -> Record {
    Record {
        country: country.to_string(),
        beer_servings: beer,
        spirit_servings: 0,
        wine_servings: 0,
        total_litres_bits: 0,
    }
}

#[test]
fn the_table_is_dropped_only_if_it_exists() {
    assert_eq!(
        drop_table(),
        Statement {
            sql: "DROP TABLE IF EXISTS DrinksDB".to_string(),
            params: vec![],
            returns_rows: false,
        }
    );
}

#[test]
fn the_table_has_five_columns() {
    let statement = create_table();
    assert_eq!(
        statement.sql,
        "CREATE TABLE DrinksDB (country TEXT, beer_servings INTEGER, spirit_servings INTEGER, wine_servings INTEGER, total_litres_of_pure_alcohol REAL)"
    );
    assert!(statement.params.is_empty());
    assert!(!statement.returns_rows);
}

#[test]
fn create_binds_the_columns_in_table_order() {
    let statement = create_record("Testland", 300, 200, 150, 12.5f64.to_bits());
    assert_eq!(
        statement.sql,
        "INSERT INTO DrinksDB (country, beer_servings, spirit_servings, wine_servings, total_litres_of_pure_alcohol) VALUES (?1, ?2, ?3, ?4, ?5)"
    );
    assert_eq!(
        statement.params,
        vec![
            SqlValue::Text("Testland".to_string()),
            SqlValue::Integer(300),
            SqlValue::Integer(200),
            SqlValue::Integer(150),
            SqlValue::Real(0x4029000000000000),
        ]
    );
    assert!(!statement.returns_rows);
}

#[test]
fn update_binds_the_country_last() {
    let statement = update_record("Testland", 320, 210, 160, 13.0f64.to_bits());
    assert_eq!(
        statement.sql,
        "UPDATE DrinksDB SET beer_servings=?1, spirit_servings=?2, wine_servings=?3, total_litres_of_pure_alcohol=?4 WHERE country=?5"
    );
    assert_eq!(
        statement.params,
        vec![
            SqlValue::Integer(320),
            SqlValue::Integer(210),
            SqlValue::Integer(160),
            SqlValue::Real(13.0f64.to_bits()),
            SqlValue::Text("Testland".to_string()),
        ]
    );
    assert!(!statement.returns_rows);
}

#[test]
fn delete_binds_the_country() {
    assert_eq!(
        delete_record("Testland"),
        Statement {
            sql: "DELETE FROM DrinksDB WHERE country=?1".to_string(),
            params: vec![SqlValue::Text("Testland".to_string())],
            returns_rows: false,
        }
    );
}

#[test]
fn reading_all_takes_no_values() {
    assert_eq!(
        read_data(),
        Statement { sql: "SELECT * FROM DrinksDB".to_string(), params: vec![], returns_rows: true }
    );
}

#[test]
fn reading_one_binds_the_country() {
    assert_eq!(
        read_record("O'Land"),
        Statement {
            sql: "SELECT * FROM DrinksDB WHERE country=?1".to_string(),
            params: vec![SqlValue::Text("O'Land".to_string())],
            returns_rows: true,
        }
    );
}

#[test]
fn no_rows_means_not_found() {
    assert_eq!(found_record(vec![]), None);
}

#[test]
fn the_first_row_is_the_one_found() {
    assert_eq!(found_record(vec![record("A", 1)]), Some(record("A", 1)));
    assert_eq!(
        found_record(vec![record("A", 1), record("A", 2), record("A", 3)]),
        Some(record("A", 1))
    );
}

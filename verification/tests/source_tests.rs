use sqlite::source::{load, row_from_fields, LoadStop, SourceRow};
use sqlite::record::Record;

const HEADER: &str = "country,beer_servings,spirit_servings,wine_servings,total_litres_of_pure_alcohol\n";

fn source(rows: &str) -> Vec<u8> {
    format!("{}{}", HEADER, rows).into_bytes()
}

fn fields(texts: &[&str]) -> Vec<String> {
    texts.iter().map(|t| t.to_string()).collect()
}

fn litres_bits(text: &str) -> Option<u64> {
    text.parse::<f64>().ok().map(f64::to_bits)
}

#[test]
fn load_reads_rows_after_the_header() {
    let loaded = load(&source("Germany,346,117,175,11.3\nUSA,249,158,84,8.7\n"));
    assert_eq!(loaded.stopped, None);
    assert_eq!(
        loaded.rows,
        vec![
            SourceRow {
                country: "Germany".to_string(),
                beer_servings: 346,
                spirit_servings: 117,
                wine_servings: 175,
                total_litres_text: "11.3".to_string(),
            },
            SourceRow {
                country: "USA".to_string(),
                beer_servings: 249,
                spirit_servings: 158,
                wine_servings: 84,
                total_litres_text: "8.7".to_string(),
            },
        ]
    );
}

#[test]
fn load_skips_the_header_even_when_it_is_all_there_is() {
    let loaded = load(HEADER.as_bytes());
    assert_eq!(loaded.stopped, None);
    assert!(loaded.rows.is_empty());
}

#[test]
fn load_of_nothing_is_empty() {
    let loaded = load(b"");
    assert_eq!(loaded.stopped, None);
    assert!(loaded.rows.is_empty());
}

#[test]
fn load_follows_the_csv_grammar_for_quotes() {
    let loaded = load(&source("\"Korea, South\",140,16,9,9.8\n\"Say \"\"hi\"\"\",1,2,3,4\n"));
    assert_eq!(loaded.stopped, None);
    assert_eq!(loaded.rows.len(), 2);
    assert_eq!(loaded.rows[0].country, "Korea, South");
    assert_eq!(loaded.rows[0].beer_servings, 140);
    assert_eq!(loaded.rows[1].country, "Say \"hi\"");
}

#[test]
fn load_puts_zero_for_a_malformed_count() {
    let loaded = load(&source("Nowhere,abc,,12.5,1.0\nElsewhere, 7,7 ,+7,x\n"));
    assert_eq!(loaded.stopped, None);
    assert_eq!(loaded.rows.len(), 2);
    assert_eq!(loaded.rows[0].beer_servings, 0);
    assert_eq!(loaded.rows[0].spirit_servings, 0);
    assert_eq!(loaded.rows[0].wine_servings, 0);
    assert_eq!(loaded.rows[0].total_litres_text, "1.0");
    assert_eq!(loaded.rows[1].beer_servings, 0);
    assert_eq!(loaded.rows[1].spirit_servings, 0);
    assert_eq!(loaded.rows[1].wine_servings, 7);
    assert_eq!(loaded.rows[1].total_litres_text, "x");
}

#[test]
fn load_stops_at_a_record_of_another_length() {
    let loaded = load(&source("A,1,2,3,4.0\nB,1,2,3\nC,1,2,3,4.0\n"));
    assert_eq!(loaded.stopped, Some(LoadStop::Unreadable));
    assert_eq!(loaded.rows.len(), 1);
    assert_eq!(loaded.rows[0].country, "A");
}

#[test]
fn load_stops_at_a_record_that_is_no_text() {
    let mut data = source("A,1,2,3,4.0\n");
    data.extend_from_slice(b"B\xff,1,2,3,4.0\nC,1,2,3,4.0\n");
    let loaded = load(&data);
    assert_eq!(loaded.stopped, Some(LoadStop::Unreadable));
    assert_eq!(loaded.rows.len(), 1);
}

#[test]
fn load_stops_at_a_short_record() {
    let loaded = load(b"country,beer\nx,1\ny,2\n");
    assert_eq!(loaded.stopped, Some(LoadStop::TooFewFields));
    assert!(loaded.rows.is_empty());
}

#[test]
fn load_ignores_columns_beyond_the_fifth() {
    let loaded = load(b"a,b,c,d,e,f\nPeru,163,160,21,6.1,extra\n");
    assert_eq!(loaded.stopped, None);
    assert_eq!(loaded.rows.len(), 1);
    assert_eq!(loaded.rows[0].country, "Peru");
    assert_eq!(loaded.rows[0].total_litres_text, "6.1");
}

#[test]
fn load_twice_gives_the_same_rows() {
    let data = source("Germany,346,117,175,11.3\nUSA,249,158,84,8.7\nFrance,127,151,370,11.8\n");
    assert_eq!(load(&data), load(&data));
    assert_eq!(load(&data).rows.len(), 3);
}

#[test]
fn a_row_needs_five_fields() {
    assert_eq!(row_from_fields(&fields(&[])), None);
    assert_eq!(row_from_fields(&fields(&["a", "1", "2", "3"])), None);
    let row = row_from_fields(&fields(&["Italy", "85", "42", "237", "6.5"])).unwrap();
    assert_eq!(row.country, "Italy");
    assert_eq!(row.beer_servings, 85);
    assert_eq!(row.spirit_servings, 42);
    assert_eq!(row.wine_servings, 237);
    assert_eq!(row.total_litres_text, "6.5");
}

#[test]
fn a_well_formed_row_becomes_the_record_that_it_writes() {
    let row = row_from_fields(&fields(&["Germany", "346", "117", "175", "11.3"])).unwrap();
    let litres = litres_bits(&row.total_litres_text);
    assert_eq!(
        row.into_record(litres),
        Record {
            country: "Germany".to_string(),
            beer_servings: 346,
            spirit_servings: 117,
            wine_servings: 175,
            total_litres_bits: 11.3f64.to_bits(),
        }
    );
}

#[test]
fn a_rejected_fifth_column_is_stored_as_zero() {
    let row = row_from_fields(&fields(&["Atlantis", "1", "x", "3", "much"])).unwrap();
    let litres = litres_bits(&row.total_litres_text);
    assert_eq!(litres, None);
    let record = row.into_record(litres);
    assert_eq!(record.spirit_servings, 0);
    assert_eq!(record.total_litres_bits, 0);
    assert_eq!(f64::from_bits(record.total_litres_bits), 0.0);
}

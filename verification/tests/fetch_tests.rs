use sqlite::config::Config;
use sqlite::fetch::{extract, FetchError, Fetched};

#[test]
fn test_extract() {
    let body = b"country,beer_servings\nGermany,346\n".to_vec();
    let contents = extract(Fetched::Answer { status: 200, body: body.clone() });
    assert_eq!(contents, Ok(body));
}

#[test]
fn every_success_status_keeps_the_body() {
    for status in [200u16, 201, 204, 226, 299] {
        let contents = extract(Fetched::Answer { status, body: vec![1, 2, 3] });
        assert_eq!(contents, Ok(vec![1, 2, 3]), "status {}", status);
    }
}

#[test]
fn an_empty_body_is_kept_as_it_is() {
    assert_eq!(extract(Fetched::Answer { status: 200, body: vec![] }), Ok(vec![]));
}

#[test]
fn any_other_status_is_a_failed_fetch() {
    for status in [0u16, 100, 199, 300, 301, 404, 500, 65535] {
        let contents = extract(Fetched::Answer { status, body: vec![1, 2, 3] });
        assert_eq!(contents, Err(FetchError::Status(status)));
    }
}

#[test]
fn a_failed_request_is_a_failed_fetch() {
    assert_eq!(extract(Fetched::Failed), Err(FetchError::Request));
}

#[test]
fn the_default_places() {
    let config = Config::default();
    assert_eq!(config.database_path, "DrinksDB.db");
    assert_eq!(config.csv_path, "data/drinks.csv");
    assert_eq!(
        config.source_url,
        "https://raw.githubusercontent.com/fivethirtyeight/data/refs/heads/master/alcohol-consumption/drinks.csv"
    );
    assert_eq!(config.log_path, "drinks_query_log.md");
}

use influxdb::client::{InfluxDbClient, Method};
use influxdb::error::InfluxDbError;
use influxdb::integrations::serde_integration::{classify_json_response, DatabaseQueryResult};
use influxdb::query::create_raw_read_query;

fn sample_decoder() -> DatabaseQueryResult {
    let first = serde_json::from_str::<serde_json::Value>(
        "{\"series\":[{\"name\":\"weather_aachen\",\"values\":[[82],[79]]}]}",
    )
    .unwrap();
    let second = serde_json::from_str::<serde_json::Value>(
        "{\"series\":[{\"name\":\"weather_cologne\",\"values\":[[75]]}]}",
    )
    .unwrap();
    DatabaseQueryResult {
        results: vec![first, second],
    }
}

#[test]
fn test_deserialize_next_consumes_in_order() {
    let mut decoder = sample_decoder();
    assert_eq!(decoder.results.len(), 2);

    let first = decoder.deserialize_next().unwrap();
    assert_eq!(decoder.results.len(), 1);
    assert_eq!(first.series.len(), 1);
    assert_eq!(first.series[0].name, "weather_aachen");
    assert_eq!(first.series[0].values.len(), 2);
    assert_eq!(first.series[0].values[0][0].as_i64(), Some(82));

    let second = decoder.deserialize_next().unwrap();
    assert_eq!(decoder.results.len(), 0);
    assert_eq!(second.series[0].name, "weather_cologne");
}

#[test]
fn test_deserialize_next_past_the_end_is_an_error() {
    let mut decoder = DatabaseQueryResult { results: vec![] };
    let result = decoder.deserialize_next();
    assert!(matches!(
        result,
        Err(InfluxDbError::DeserializationError { .. })
    ));
}

#[test]
fn test_deserialize_next_shape_mismatch() {
    let entry = serde_json::from_str::<serde_json::Value>("{\"nothing\":1}").unwrap();
    let mut decoder = DatabaseQueryResult {
        results: vec![entry],
    };
    let result = decoder.deserialize_next();
    assert!(matches!(
        result,
        Err(InfluxDbError::DeserializationError { .. })
    ));
    assert_eq!(decoder.results.len(), 0);
}

#[test]
fn test_prepare_json_query_select_is_accepted() {
    let client = InfluxDbClient::new("http://localhost:8086", "test");
    let query = create_raw_read_query("SELECT * FROM weather");
    let request = client.prepare_json_query(&query).unwrap();
    assert_eq!(request.method, Method::Get);
    assert!(request.body.is_none());
    assert_eq!(
        request.url,
        "http://localhost:8086/query?db=test&q=SELECT+*+FROM+weather"
    );
}

#[test]
fn test_prepare_json_query_rejects_other_statements() {
    let client = InfluxDbClient::new("http://localhost:8086", "test");
    let query = create_raw_read_query("CREATE DATABASE weather");
    let result = client.prepare_json_query(&query);
    match result {
        Err(InfluxDbError::InvalidQueryError { error }) => {
            assert_eq!(
                error,
                "Only SELECT and SHOW queries supported with JSON deserialization"
            );
        }
        other => panic!("expected an invalid-query error, got {:?}", other),
    }
}

#[test]
fn test_classify_json_response_error_envelope() {
    let body: Vec<u8> = b"{\"error\":\"database not found: test\"}".to_vec();
    let result = classify_json_response(200, &body);
    match result {
        Err(InfluxDbError::DatabaseError { error }) => {
            assert_eq!(error, "database not found: test");
        }
        other => panic!("expected a database error, got {:?}", other),
    }
}

#[test]
fn test_classify_json_response_results() {
    let body: Vec<u8> =
        b"{\"results\":[{\"series\":[{\"name\":\"weather\",\"values\":[[82]]}]}]}".to_vec();
    let decoder = classify_json_response(200, &body).unwrap();
    assert_eq!(decoder.results.len(), 1);
}

#[test]
fn test_classify_json_response_invalid_json() {
    let body: Vec<u8> = b"not json at all".to_vec();
    let result = classify_json_response(200, &body);
    assert!(matches!(
        result,
        Err(InfluxDbError::DeserializationError { .. })
    ));
}

#[test]
fn test_classify_json_response_statuses() {
    let body: Vec<u8> = b"{}".to_vec();
    assert!(matches!(
        classify_json_response(401, &body),
        Err(InfluxDbError::AuthorizationError)
    ));
    assert!(matches!(
        classify_json_response(403, &body),
        Err(InfluxDbError::AuthenticationError)
    ));
}

use influxdb::client::{classify_response, InfluxDbClient, Method};
use influxdb::error::InfluxDbError;
use influxdb::query::write_query::InfluxDbType;
use influxdb::query::{create_raw_read_query, create_write_query, InfluxDbQuery, Timestamp};

#[test]
fn test_fn_database() {
    let client = InfluxDbClient::new("http://localhost:8068", "database");
    assert_eq!("database", client.database_name());
}

#[test]
fn test_with_auth() {
    let client = InfluxDbClient::new("http://localhost:8068", "database");
    assert_eq!(client.url, "http://localhost:8068");
    assert_eq!(client.database, "database");
    assert!(client.auth.is_none());
    let with_auth = client.with_auth("username", "password");
    assert!(with_auth.auth.is_some());
    let auth = with_auth.auth.unwrap();
    assert_eq!(&auth.username, "username");
    assert_eq!(&auth.password, "password");
}

#[test]
fn test_into_impl() {
    let client = InfluxDbClient::new("http://localhost:8068", "database");
    assert!(client.auth.is_none());
    let basic_parameters: Vec<(String, String)> = client.into_basic_parameters();
    assert_eq!(
        vec![("db".to_string(), "database".to_string())],
        basic_parameters
    );

    let with_auth = InfluxDbClient::new("http://localhost:8068", "database")
        .with_auth("username", "password");
    let basic_parameters_with_auth: Vec<(String, String)> = with_auth.into_basic_parameters();
    assert_eq!(
        vec![
            ("db".to_string(), "database".to_string()),
            ("u".to_string(), "username".to_string()),
            ("p".to_string(), "password".to_string())
        ],
        basic_parameters_with_auth
    );

    let client = InfluxDbClient::new("http://localhost:8068", "database");
    assert!(client.auth.is_none());
    let basic_parameters: Vec<(String, String)> = client.basic_parameters();
    assert_eq!(
        vec![("db".to_string(), "database".to_string())],
        basic_parameters
    );

    let with_auth = InfluxDbClient::new("http://localhost:8068", "database")
        .with_auth("username", "password");
    let basic_parameters_with_auth: Vec<(String, String)> = with_auth.basic_parameters();
    assert_eq!(
        vec![
            ("db".to_string(), "database".to_string()),
            ("u".to_string(), "username".to_string()),
            ("p".to_string(), "password".to_string())
        ],
        basic_parameters_with_auth
    );
}

#[test]
fn test_builder_does_not_mutate_original() {
    let client = InfluxDbClient::new("http://localhost:8086", "database");
    assert_eq!(client.database_name(), "database");
    let with_auth = client.clone().with_auth("username", "password");
    assert!(client.auth.is_none());
    let parameters = with_auth.basic_parameters();
    assert_eq!(
        vec![
            ("db".to_string(), "database".to_string()),
            ("u".to_string(), "username".to_string()),
            ("p".to_string(), "password".to_string())
        ],
        parameters
    );
}

#[test]
fn test_ping_url() {
    let client = InfluxDbClient::new("http://localhost:8086", "test");
    assert_eq!(client.ping_url(), "http://localhost:8086/ping");
}

#[test]
fn test_prepare_query_select_uses_get() {
    let client = InfluxDbClient::new("http://localhost:8086", "test");
    let query = InfluxDbQuery::Read(create_raw_read_query("SELECT * FROM aachen"));
    let request = client.prepare_query(&query).unwrap();
    assert_eq!(request.method, Method::Get);
    assert!(request.body.is_none());
    assert_eq!(
        request.url,
        "http://localhost:8086/query?db=test&q=SELECT+*+FROM+aachen"
    );
}

#[test]
fn test_prepare_query_show_uses_get() {
    let client = InfluxDbClient::new("http://localhost:8086", "test");
    let query = InfluxDbQuery::Read(create_raw_read_query("SHOW DATABASES"));
    let request = client.prepare_query(&query).unwrap();
    assert_eq!(request.method, Method::Get);
}

#[test]
fn test_prepare_query_other_read_uses_post() {
    let client = InfluxDbClient::new("http://localhost:8086", "test");
    let query = InfluxDbQuery::Read(create_raw_read_query("CREATE DATABASE aachen"));
    let request = client.prepare_query(&query).unwrap();
    assert_eq!(request.method, Method::Post);
}

#[test]
fn test_prepare_query_write_uses_post() {
    let client = InfluxDbClient::new("http://localhost:8086", "test");
    let query = InfluxDbQuery::Write(
        create_write_query(Timestamp::HOURS(11), "weather")
            .add_field("temperature", InfluxDbType::SignedInteger(82)),
    );
    let request = client.prepare_query(&query).unwrap();
    assert_eq!(request.method, Method::Post);
    assert_eq!(
        request.url,
        "http://localhost:8086/write?db=test&precision=h"
    );
    assert_eq!(request.body.unwrap(), "weather temperature=82i 11");
}

#[test]
fn test_prepare_query_empty_write_fails_before_url() {
    let client = InfluxDbClient::new("not a url", "test");
    let query = InfluxDbQuery::Write(create_write_query(Timestamp::NOW, "weather"));
    let result = client.prepare_query(&query);
    assert!(matches!(
        result,
        Err(InfluxDbError::InvalidQueryError { .. })
    ));
}

#[test]
fn test_prepare_query_bad_base_url() {
    let client = InfluxDbClient::new("not a url", "test");
    let query = InfluxDbQuery::Read(create_raw_read_query("SELECT * FROM aachen"));
    let result = client.prepare_query(&query);
    assert!(matches!(
        result,
        Err(InfluxDbError::UrlConstructionError { .. })
    ));
}

#[test]
fn test_classify_response_authorization() {
    let body: Vec<u8> = b"ignored no matter what it holds, even \"error\"".to_vec();
    let result = classify_response(401, &body);
    assert!(matches!(result, Err(InfluxDbError::AuthorizationError)));
}

#[test]
fn test_classify_response_authentication() {
    let body: Vec<u8> = b"ignored no matter what it holds, even \"error\"".to_vec();
    let result = classify_response(403, &body);
    assert!(matches!(result, Err(InfluxDbError::AuthenticationError)));
}

#[test]
fn test_classify_response_database_error_on_200() {
    let body: Vec<u8> = b"{\"results\":[{\"error\":\"field is required\"}]}".to_vec();
    let result = classify_response(200, &body);
    match result {
        Err(InfluxDbError::DatabaseError { error }) => {
            assert_eq!(
                error,
                "influxdb error: \"{\"results\":[{\"error\":\"field is required\"}]}\""
            );
        }
        other => panic!("expected a database error, got {:?}", other),
    }
}

#[test]
fn test_classify_response_success() {
    let body: Vec<u8> = b"{\"results\":[]}".to_vec();
    let result = classify_response(200, &body);
    assert_eq!(result.unwrap(), "{\"results\":[]}");
}

#[test]
fn test_classify_response_invalid_utf8() {
    let body: Vec<u8> = vec![0xff, 0xfe, 0x80];
    let result = classify_response(200, &body);
    match result {
        Err(InfluxDbError::DeserializationError { error }) => {
            assert_eq!(error, "response could not be converted to UTF-8 encoded string");
        }
        other => panic!("expected a deserialization error, got {:?}", other),
    }
}

#[test]
fn test_error_text() {
    assert_eq!(
        InfluxDbError::AuthorizationError.text(),
        "authorization failure"
    );
    assert_eq!(
        InfluxDbError::AuthenticationError.text(),
        "authentication failure"
    );
    let wrapped = InfluxDbError::DatabaseError {
        error: "something went wrong".to_string(),
    };
    assert_eq!(wrapped.text(), "something went wrong");
}

use influxdb::query::write_query::InfluxDbType;
use influxdb::query::{create_raw_read_query, create_write_query, Timestamp, ValidQuery};

#[test]
fn test_equality_str() {
    assert_eq!(ValidQuery::from("hello"), "hello");
}

#[test]
fn test_equality_string() {
    assert_eq!(ValidQuery::from("hello"), String::from("hello"));
}

#[test]
fn test_format_for_timestamp_now() {
    assert!(Timestamp::NOW.to_text() == String::from(""));
}

#[test]
fn test_format_for_timestamp_else() {
    assert!(Timestamp::NANOSECONDS(100).to_text() == String::from("100"));
}

#[test]
fn test_timestamp_text_independent_of_unit() {
    assert_eq!(Timestamp::NANOSECONDS(100).to_text(), "100");
    assert_eq!(Timestamp::MICROSECONDS(100).to_text(), "100");
    assert_eq!(Timestamp::MILLISECONDS(100).to_text(), "100");
    assert_eq!(Timestamp::SECONDS(100).to_text(), "100");
    assert_eq!(Timestamp::MINUTES(100).to_text(), "100");
    assert_eq!(Timestamp::HOURS(100).to_text(), "100");
}

#[test]
fn test_write_builder_empty_query() {
    let query = create_write_query(Timestamp::NOW, "marina_3").build();
    assert!(query.is_err(), "Build succeeded with zero fields");
    let text = query.unwrap_err().text();
    assert_eq!(text, "fields cannot be empty");
}

#[test]
fn test_write_builder_single_field() {
    let query = create_write_query(Timestamp::NOW, "weather")
        .add_field("temperature", InfluxDbType::SignedInteger(82))
        .build();
    assert_eq!(query.unwrap(), "weather temperature=82i");
}

#[test]
fn test_write_builder_field_and_tag() {
    let query = create_write_query(Timestamp::NOW, "measurement")
        .add_field("field1", InfluxDbType::SignedInteger(5))
        .add_tag("author", "X")
        .build();
    assert_eq!(query.unwrap(), "measurement,author=X field1=5i");
}

#[test]
fn test_write_builder_with_timestamp() {
    let query = create_write_query(Timestamp::SECONDS(1563099000), "weather")
        .add_field("temperature", InfluxDbType::SignedInteger(82))
        .build();
    assert_eq!(query.unwrap(), "weather temperature=82i 1563099000");
}

#[test]
fn test_write_builder_value_encodings() {
    let query = create_write_query(Timestamp::NOW, "weather")
        .add_field("rainy", InfluxDbType::Boolean(true))
        .add_field("dry", InfluxDbType::Boolean(false))
        .add_field("low", InfluxDbType::SignedInteger(-7))
        .add_field("ratio", InfluxDbType::Float((0.5_f64).to_string()))
        .add_field("city", InfluxDbType::Text(String::from("Aachen")))
        .build();
    assert_eq!(
        query.unwrap(),
        "weather rainy=true,dry=false,low=-7i,ratio=0.5,city=\"Aachen\""
    );
}

#[test]
fn test_write_builder_escaping() {
    let query = create_write_query(Timestamp::NOW, "weather")
        .add_field("note", InfluxDbType::Text(String::from("say \"hi\" \\ bye")))
        .add_tag("plain country", "the netherlands,europe")
        .add_tag("eq=key", "v")
        .build();
    assert_eq!(
        query.unwrap(),
        "weather,plain\\ country=the\\ netherlands\\,europe,eq\\=key=v note=\"say \\\"hi\\\" \\\\ bye\""
    );
}

#[test]
fn test_write_precision_mapping() {
    let units = [
        (Timestamp::NOW, ""),
        (Timestamp::NANOSECONDS(1), "ns"),
        (Timestamp::MICROSECONDS(1), "u"),
        (Timestamp::MILLISECONDS(1), "ms"),
        (Timestamp::SECONDS(1), "s"),
        (Timestamp::MINUTES(1), "m"),
        (Timestamp::HOURS(1), "h"),
    ];
    for (ts, expected) in units {
        let query = create_write_query(ts, "weather");
        assert_eq!(query.get_precision(), expected);
    }
}

#[test]
fn test_read_builder_returns_valid_query() {
    let query = create_raw_read_query("SELECT * FROM weather").build();
    assert!(query.is_ok());
}

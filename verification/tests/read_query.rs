use influxdb::query::{create_raw_read_query, QueryType};

#[test]
fn test_read_builder_single_query() {
    let query = create_raw_read_query("SELECT * FROM aachen").build();

    assert_eq!(query.unwrap(), "SELECT * FROM aachen");
}

#[test]
fn test_read_builder_multi_query() {
    let query = create_raw_read_query("SELECT * FROM aachen")
        .add("SELECT * FROM cologne")
        .build();

    assert_eq!(query.unwrap(), "SELECT * FROM aachen;SELECT * FROM cologne");
}

#[test]
fn test_correct_query_type() {
    let query = create_raw_read_query("SELECT * FROM aachen");

    assert_eq!(query.get_type(), QueryType::ReadQuery);
}

#[test]
fn test_read_builder_three_statements_keep_order() {
    let query = create_raw_read_query("SELECT * FROM a")
        .add("SELECT * FROM b")
        .add("SELECT * FROM c")
        .build();

    assert_eq!(query.unwrap(), "SELECT * FROM a;SELECT * FROM b;SELECT * FROM c");
}

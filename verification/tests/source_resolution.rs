use frame::source::{describe_query, relation_expr};

#[test]
fn parquet_extension_wraps_reader() {
    assert_eq!(
        relation_expr("data.parquet", "data.parquet"),
        "READ_PARQUET('data.parquet')"
    );
}

#[test]
fn csv_extension_wraps_reader() {
    assert_eq!(
        relation_expr("data.csv", "data.csv"),
        "READ_CSV_AUTO('data.csv')"
    );
}

#[test]
fn json_extension_wraps_reader() {
    assert_eq!(
        relation_expr("data.json", "data.json"),
        "READ_JSON_AUTO('data.json')"
    );
}

#[test]
fn ndjson_extension_wraps_reader() {
    assert_eq!(
        relation_expr("data.ndjson", "data.ndjson"),
        "READ_NDJSON_AUTO('data.ndjson')"
    );
}

#[test]
fn unknown_extension_passes_through() {
    assert_eq!(relation_expr("data.txt", "data.txt"), "data.txt");
}

#[test]
fn bare_table_name_passes_through() {
    assert_eq!(relation_expr("mytable", "mytable"), "mytable");
}

#[test]
fn token_inside_name_still_matches() {
    assert_eq!(
        relation_expr("data.csv.bak", "data.csv.bak"),
        "READ_CSV_AUTO('data.csv.bak')"
    );
}

#[test]
fn leftmost_token_decides() {
    assert_eq!(
        relation_expr("a.json.parquet", "a.json.parquet"),
        "READ_JSON_AUTO('a.json.parquet')"
    );
}

#[test]
fn full_path_embedded_while_name_sniffed() {
    assert_eq!(
        relation_expr("dir/data.csv", "data.csv"),
        "READ_CSV_AUTO('dir/data.csv')"
    );
}

#[test]
fn describe_statement_text() {
    assert_eq!(describe_query("tbl"), "DESCRIBE SELECT * FROM tbl");
}

use frame::select::WhereCommand;
use frame::utils::join_cols;

#[test]
fn plain_columns_pass_through() {
    let cols = vec!["a".to_string(), "b".to_string()];
    assert_eq!(join_cols(&cols, None), "a, b");
}

#[test]
fn plain_single_column() {
    let cols = vec!["city".to_string()];
    assert_eq!(join_cols(&cols, None), "city");
}

#[test]
fn aggregate_expression_shape() {
    let cols = vec!["a".to_string()];
    assert_eq!(join_cols(&cols, Some("count")), "COUNT(a) AS count_a");
}

#[test]
fn aggregate_alias_lowercase_regardless_of_case() {
    let cols = vec!["a".to_string()];
    assert_eq!(join_cols(&cols, Some("CoUnT")), "COUNT(a) AS count_a");
    assert_eq!(join_cols(&cols, Some("SUM")), "SUM(a) AS sum_a");
}

#[test]
fn composite_column_alias_underscored() {
    let cols = vec!["y,x".to_string()];
    assert_eq!(join_cols(&cols, Some("corr")), "CORR(y,x) AS corr_y_x");
}

#[test]
fn column_with_space_underscored() {
    let cols = vec!["a b".to_string()];
    assert_eq!(join_cols(&cols, Some("sum")), "SUM(a b) AS sum_a_b");
}

#[test]
fn several_aggregated_columns_joined() {
    let cols = vec!["a".to_string(), "b".to_string()];
    assert_eq!(
        join_cols(&cols, Some("avg")),
        "AVG(a) AS avg_a, AVG(b) AS avg_b"
    );
}

#[test]
fn empty_binding_list_yields_empty_fragment() {
    let cols: Vec<String> = vec![];
    assert_eq!(join_cols(&cols, Some("count")), "");
    assert_eq!(join_cols(&cols, None), "");
}

#[test]
fn where_clause_basic() {
    let w = WhereCommand {
        where_: "x > 1".to_string(),
        and: None,
        or: None,
    };
    assert_eq!(w.build(), "WHERE x > 1");
}

#[test]
fn where_clause_and_then_or() {
    let w = WhereCommand {
        where_: "x > 1".to_string(),
        and: Some(vec!["y < 2".to_string()]),
        or: Some(vec!["z = 3".to_string()]),
    };
    assert_eq!(w.build(), "WHERE x > 1 AND y < 2 OR z = 3");
}

#[test]
fn where_clause_several_ands() {
    let w = WhereCommand {
        where_: "x > 1".to_string(),
        and: Some(vec!["y < 2".to_string(), "w = 0".to_string()]),
        or: None,
    };
    assert_eq!(w.build(), "WHERE x > 1 AND y < 2 AND w = 0");
}

#[test]
fn where_clause_or_without_and_is_ignored() {
    let w = WhereCommand {
        where_: "x > 1".to_string(),
        and: None,
        or: Some(vec!["z = 3".to_string()]),
    };
    assert_eq!(w.build(), "WHERE x > 1");
}

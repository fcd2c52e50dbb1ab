use frame::agg::AggCommand;

fn strings(names: &[&str]) -> Vec<String> {
    names.iter().map(|n| n.to_string()).collect()
}

#[test]
fn group_by_with_count_default_limit() {
    let cmd = AggCommand {
        group_by: Some(strings(&["a", "b"])),
        count: Some(strings(&["c"])),
        ..Default::default()
    };
    assert_eq!(
        cmd.build_query("tbl"),
        "SELECT\na, b,\nCOUNT(c) AS count_c\nFROM tbl\nGROUP BY a, b\nLIMIT 10"
    );
}

#[test]
fn limit_zero_suppresses_clause() {
    let cmd = AggCommand {
        count: Some(strings(&["c"])),
        limit: 0,
        ..Default::default()
    };
    assert_eq!(cmd.build_query("t"), "SELECT\nCOUNT(c) AS count_c\nFROM t");
}

#[test]
fn limit_minus_one_suppresses_clause() {
    let cmd = AggCommand {
        count: Some(strings(&["c"])),
        limit: -1,
        ..Default::default()
    };
    assert_eq!(cmd.build_query("t"), "SELECT\nCOUNT(c) AS count_c\nFROM t");
}

#[test]
fn limit_five_appends_clause() {
    let cmd = AggCommand {
        count: Some(strings(&["c"])),
        limit: 5,
        ..Default::default()
    };
    assert_eq!(
        cmd.build_query("t"),
        "SELECT\nCOUNT(c) AS count_c\nFROM t\nLIMIT 5"
    );
}

#[test]
fn large_limit_rendered_in_decimal() {
    let cmd = AggCommand {
        count: Some(strings(&["c"])),
        limit: 12345,
        ..Default::default()
    };
    assert_eq!(
        cmd.build_query("t"),
        "SELECT\nCOUNT(c) AS count_c\nFROM t\nLIMIT 12345"
    );
}

#[test]
fn average_precedes_sum() {
    let cmd = AggCommand {
        avg: Some(strings(&["a"])),
        sum: Some(strings(&["b"])),
        limit: 0,
        ..Default::default()
    };
    assert_eq!(
        cmd.build_query("t"),
        "SELECT\nAVG(a) AS avg_a,\nSUM(b) AS sum_b\nFROM t"
    );
}

#[test]
fn count_distinct_alias_derived_from_count() {
    let cmd = AggCommand {
        count_distinct: Some(strings(&["a", "b"])),
        limit: 0,
        ..Default::default()
    };
    assert_eq!(
        cmd.build_query("t"),
        "SELECT\nCOUNT(distinct a) AS count_distinct_a, COUNT(distinct b) AS count_distinct_b\nFROM t"
    );
}

#[test]
fn count_distinct_precedes_group_by_columns() {
    let cmd = AggCommand {
        group_by: Some(strings(&["g"])),
        count_distinct: Some(strings(&["c"])),
        limit: 0,
        ..Default::default()
    };
    assert_eq!(
        cmd.build_query("t"),
        "SELECT\nCOUNT(distinct c) AS count_distinct_c,\ng\nFROM t\nGROUP BY g"
    );
}

#[test]
fn present_but_empty_binding_contributes_empty_fragment() {
    let cmd = AggCommand {
        count: Some(vec![]),
        limit: 0,
        ..Default::default()
    };
    assert_eq!(cmd.build_query("t"), "SELECT\n\nFROM t");
}

#[test]
fn all_bindings_in_fixed_order() {
    let cmd = AggCommand {
        group_by: Some(strings(&["g"])),
        count: Some(strings(&["c1"])),
        count_distinct: Some(strings(&["d"])),
        avg: Some(strings(&["c2"])),
        geomean: Some(strings(&["c3"])),
        list: Some(strings(&["c4"])),
        histogram: Some(strings(&["c5"])),
        max: Some(strings(&["c6"])),
        min: Some(strings(&["c7"])),
        product: Some(strings(&["c8"])),
        sum: Some(strings(&["c9"])),
        corr: Some(strings(&["y,x"])),
        entropy: Some(strings(&["c10"])),
        kurtosis: Some(strings(&["c11"])),
        mad: Some(strings(&["c12"])),
        median: Some(strings(&["c13"])),
        mode: Some(strings(&["c14"])),
        limit: 2,
        ..Default::default()
    };
    let expected = "SELECT\n\
        COUNT(distinct d) AS count_distinct_d,\n\
        g,\n\
        COUNT(c1) AS count_c1,\n\
        AVG(c2) AS avg_c2,\n\
        GEOMEAN(c3) AS geomean_c3,\n\
        LIST(c4) AS list_c4,\n\
        HISTOGRAM(c5) AS histogram_c5,\n\
        MAX(c6) AS max_c6,\n\
        MIN(c7) AS min_c7,\n\
        PRODUCT(c8) AS product_c8,\n\
        SUM(c9) AS sum_c9,\n\
        CORR(y,x) AS corr_y_x,\n\
        ENTROPY(c10) AS entropy_c10,\n\
        KURTOSIS(c11) AS kurtosis_c11,\n\
        MAD(c12) AS mad_c12,\n\
        MEDIAN(c13) AS median_c13,\n\
        MODE(c14) AS mode_c14\n\
        FROM t\n\
        GROUP BY g\n\
        LIMIT 2";
    assert_eq!(cmd.build_query("t"), expected);
}

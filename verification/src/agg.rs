//! The aggregation command and its query builder.

use vstd::prelude::*;

use crate::casing::{lower_of, upper_of};
use crate::utils::{join_cols, join_strings, join_with, lemma_aggregate_expression, spec_join_cols, underscored};

verus! {

/// Options of the aggregation subcommand: one optional column list per
/// aggregate function, the grouping columns, and a row limit.
pub struct AggCommand {
    pub group_by: Option<Vec<String>>,
    pub count: Option<Vec<String>>,
    pub count_distinct: Option<Vec<String>>,
    pub avg: Option<Vec<String>>,
    pub geomean: Option<Vec<String>>,
    pub list: Option<Vec<String>>,
    pub histogram: Option<Vec<String>>,
    pub max: Option<Vec<String>>,
    pub min: Option<Vec<String>>,
    pub product: Option<Vec<String>>,
    pub sum: Option<Vec<String>>,
    pub corr: Option<Vec<String>>,
    pub entropy: Option<Vec<String>>,
    pub kurtosis: Option<Vec<String>>,
    pub mad: Option<Vec<String>>,
    pub median: Option<Vec<String>>,
    pub mode: Option<Vec<String>>,
    pub limit: i128,
    pub order_by: Option<Vec<String>>,
    pub write: Option<Vec<String>>,
}

/// The mathematical shadow of an `AggCommand`: every column list as a
/// sequence of character sequences, the limit as an unbounded integer.
pub ghost struct AggView {
    pub group_by: Option<Seq<Seq<char>>>,
    pub count: Option<Seq<Seq<char>>>,
    pub count_distinct: Option<Seq<Seq<char>>>,
    pub avg: Option<Seq<Seq<char>>>,
    pub geomean: Option<Seq<Seq<char>>>,
    pub list: Option<Seq<Seq<char>>>,
    pub histogram: Option<Seq<Seq<char>>>,
    pub max: Option<Seq<Seq<char>>>,
    pub min: Option<Seq<Seq<char>>>,
    pub product: Option<Seq<Seq<char>>>,
    pub sum: Option<Seq<Seq<char>>>,
    pub corr: Option<Seq<Seq<char>>>,
    pub entropy: Option<Seq<Seq<char>>>,
    pub kurtosis: Option<Seq<Seq<char>>>,
    pub mad: Option<Seq<Seq<char>>>,
    pub median: Option<Seq<Seq<char>>>,
    pub mode: Option<Seq<Seq<char>>>,
    pub limit: int,
    pub order_by: Option<Seq<Seq<char>>>,
    pub write: Option<Seq<Seq<char>>>,
}

impl View for AggCommand {
    type V = AggView;

    open spec fn view(&self) -> AggView {
        AggView {
            group_by: self.group_by.deep_view(),
            count: self.count.deep_view(),
            count_distinct: self.count_distinct.deep_view(),
            avg: self.avg.deep_view(),
            geomean: self.geomean.deep_view(),
            list: self.list.deep_view(),
            histogram: self.histogram.deep_view(),
            max: self.max.deep_view(),
            min: self.min.deep_view(),
            product: self.product.deep_view(),
            sum: self.sum.deep_view(),
            corr: self.corr.deep_view(),
            entropy: self.entropy.deep_view(),
            kurtosis: self.kurtosis.deep_view(),
            mad: self.mad.deep_view(),
            median: self.median.deep_view(),
            mode: self.mode.deep_view(),
            limit: self.limit as int,
            order_by: self.order_by.deep_view(),
            write: self.write.deep_view(),
        }
    }
}

/// The digit character of one decimal digit.
pub open spec fn dec_digit(d: int) -> char {
    if d == 0 {
        '0'
    } else if d == 1 {
        '1'
    } else if d == 2 {
        '2'
    } else if d == 3 {
        '3'
    } else if d == 4 {
        '4'
    } else if d == 5 {
        '5'
    } else if d == 6 {
        '6'
    } else if d == 7 {
        '7'
    } else if d == 8 {
        '8'
    } else {
        '9'
    }
}

/// The decimal rendering of a positive integer, most significant digit
/// first, without sign or leading zeros.
pub open spec fn dec_of(n: int) -> Seq<char>
    decreases n,
    when n > 0
{
    if n <= 9 {
        seq![dec_digit(n)]
    } else {
        dec_of(n / 10).push(dec_digit(n % 10))
    }
}

fn digit_str(d: i128) -> (r: &'static str)
    requires
        0 <= d <= 9,
    ensures
        r@ == seq![dec_digit(d as int)],
{
    if d == 0 {
        proof {
            reveal_strlit("0");
            assert("0"@ =~= seq![dec_digit(d as int)]);
        }
        "0"
    } else if d == 1 {
        proof {
            reveal_strlit("1");
            assert("1"@ =~= seq![dec_digit(d as int)]);
        }
        "1"
    } else if d == 2 {
        proof {
            reveal_strlit("2");
            assert("2"@ =~= seq![dec_digit(d as int)]);
        }
        "2"
    } else if d == 3 {
        proof {
            reveal_strlit("3");
            assert("3"@ =~= seq![dec_digit(d as int)]);
        }
        "3"
    } else if d == 4 {
        proof {
            reveal_strlit("4");
            assert("4"@ =~= seq![dec_digit(d as int)]);
        }
        "4"
    } else if d == 5 {
        proof {
            reveal_strlit("5");
            assert("5"@ =~= seq![dec_digit(d as int)]);
        }
        "5"
    } else if d == 6 {
        proof {
            reveal_strlit("6");
            assert("6"@ =~= seq![dec_digit(d as int)]);
        }
        "6"
    } else if d == 7 {
        proof {
            reveal_strlit("7");
            assert("7"@ =~= seq![dec_digit(d as int)]);
        }
        "7"
    } else if d == 8 {
        proof {
            reveal_strlit("8");
            assert("8"@ =~= seq![dec_digit(d as int)]);
        }
        "8"
    } else {
        proof {
            reveal_strlit("9");
            assert("9"@ =~= seq![dec_digit(d as int)]);
        }
        "9"
    }
}

/// Renders a positive row limit in decimal.
fn dec_string(n: i128) -> (r: String)
    requires
        n > 0,
    ensures
        r@ == dec_of(n as int),
    decreases n,
{
    if n <= 9 {
        String::from_str(digit_str(n))
    } else {
        let mut r = dec_string(n / 10);
        r.append(digit_str(n % 10));
        r
    }
}

/// Each column wrapped into a `distinct` term, as the count-distinct
/// binding hands its columns to the generic join logic.
pub open spec fn distinct_prefixed(cols: Seq<Seq<char>>) -> Seq<Seq<char>> {
    cols.map_values(|c: Seq<char>| "distinct "@ + c)
}

/// The expression-list fragment an optional binding contributes: nothing
/// when the column list is absent, one joined fragment when present (even
/// when the list is present but empty).
pub open spec fn opt_binding(cols: Option<Seq<Seq<char>>>, agg: Option<Seq<char>>) -> Seq<
    Seq<char>,
> {
    match cols {
        Option::None => Seq::empty(),
        Option::Some(cs) => seq![spec_join_cols(cs, agg)],
    }
}

/// The count-distinct fragment: every column is prefixed with `distinct`
/// and the whole list is handed to `COUNT` as one binding, so each alias is
/// derived from `count`, not from `distinct`.
pub open spec fn count_distinct_part(v: AggView) -> Seq<Seq<char>> {
    match v.count_distinct {
        Option::None => Seq::empty(),
        Option::Some(cs) => seq![
            spec_join_cols(distinct_prefixed(cs), Option::Some("COUNT"@)),
        ],
    }
}

/// The expression fragments of every present binding, in the fixed order:
/// count-distinct, then unaliased group-by columns, then count, average,
/// geometric mean, list, histogram, max, min, product, sum, correlation,
/// entropy, kurtosis, median absolute deviation, median, mode.  An absent
/// binding contributes nothing; CLI argument order never matters.
pub open spec fn spec_column_parts(v: AggView) -> Seq<Seq<char>> {
    count_distinct_part(v) + opt_binding(v.group_by, Option::None) + opt_binding(
        v.count,
        Option::Some("COUNT"@),
    ) + opt_binding(v.avg, Option::Some("AVG"@)) + opt_binding(
        v.geomean,
        Option::Some("GEOMEAN"@),
    ) + opt_binding(v.list, Option::Some("LIST"@)) + opt_binding(
        v.histogram,
        Option::Some("HISTOGRAM"@),
    ) + opt_binding(v.max, Option::Some("MAX"@)) + opt_binding(v.min, Option::Some("MIN"@))
        + opt_binding(v.product, Option::Some("PRODUCT"@)) + opt_binding(
        v.sum,
        Option::Some("SUM"@),
    ) + opt_binding(v.corr, Option::Some("CORR"@)) + opt_binding(
        v.entropy,
        Option::Some("ENTROPY"@),
    ) + opt_binding(v.kurtosis, Option::Some("KURTOSIS"@)) + opt_binding(
        v.mad,
        Option::Some("MAD"@),
    ) + opt_binding(v.median, Option::Some("MEDIAN"@)) + opt_binding(
        v.mode,
        Option::Some("MODE"@),
    )
}

/// The clauses of the statement in order: `SELECT`, the expression block
/// (fragments joined with `",\n"`), `FROM`, a `GROUP BY` clause only when
/// grouping columns were supplied, and a `LIMIT` clause only when the limit
/// is strictly positive.
pub open spec fn spec_query_parts(v: AggView, from: Seq<char>) -> Seq<Seq<char>> {
    seq!["SELECT"@, join_with(spec_column_parts(v), ",\n"@), "FROM "@ + from] + (match v.group_by {
        Option::None => Seq::<Seq<char>>::empty(),
        Option::Some(g) => seq!["GROUP BY "@ + join_with(g, ", "@)],
    }) + (if v.limit > 0 {
        seq!["LIMIT "@ + dec_of(v.limit)]
    } else {
        Seq::<Seq<char>>::empty()
    })
}

/// The full statement: the clauses joined with newlines.
pub open spec fn spec_build_query(v: AggView, from: Seq<char>) -> Seq<char> {
    join_with(spec_query_parts(v, from), "\n"@)
}

/// Binding order is fixed: whenever both an average and a sum binding are
/// present, the average fragment stands before the sum fragment in the
/// expression list, whatever else is present.
pub proof fn lemma_avg_before_sum(v: AggView)
    requires
        v.avg is Some,
        v.sum is Some,
    ensures
        exists|i: int, j: int|
            0 <= i < j < spec_column_parts(v).len() && spec_column_parts(v)[i] == spec_join_cols(
                v.avg->Some_0,
                Option::Some("AVG"@),
            ) && spec_column_parts(v)[j] == spec_join_cols(v.sum->Some_0, Option::Some("SUM"@)),
{
    let a = spec_join_cols(v.avg->Some_0, Option::Some("AVG"@));
    let s = spec_join_cols(v.sum->Some_0, Option::Some("SUM"@));
    let t2 = count_distinct_part(v) + opt_binding(v.group_by, Option::None) + opt_binding(
        v.count,
        Option::Some("COUNT"@),
    );
    let t3 = t2 + opt_binding(v.avg, Option::Some("AVG"@));
    let t4 = t3 + opt_binding(v.geomean, Option::Some("GEOMEAN"@));
    let t5 = t4 + opt_binding(v.list, Option::Some("LIST"@));
    let t6 = t5 + opt_binding(v.histogram, Option::Some("HISTOGRAM"@));
    let t7 = t6 + opt_binding(v.max, Option::Some("MAX"@));
    let t8 = t7 + opt_binding(v.min, Option::Some("MIN"@));
    let t9 = t8 + opt_binding(v.product, Option::Some("PRODUCT"@));
    let t10 = t9 + opt_binding(v.sum, Option::Some("SUM"@));
    let t11 = t10 + opt_binding(v.corr, Option::Some("CORR"@));
    let t12 = t11 + opt_binding(v.entropy, Option::Some("ENTROPY"@));
    let t13 = t12 + opt_binding(v.kurtosis, Option::Some("KURTOSIS"@));
    let t14 = t13 + opt_binding(v.mad, Option::Some("MAD"@));
    let t15 = t14 + opt_binding(v.median, Option::Some("MEDIAN"@));
    let t16 = t15 + opt_binding(v.mode, Option::Some("MODE"@));
    assert(spec_column_parts(v) == t16);
    assert(opt_binding(v.avg, Option::Some("AVG"@)) == seq![a]);
    assert(opt_binding(v.sum, Option::Some("SUM"@)) == seq![s]);
    let i = t2.len() as int;
    let j = t9.len() as int;
    assert(t3[i] == a);
    assert(t10[j] == s);
    assert(i < t3.len() <= t9.len());
    assert(j < t10.len());
    assert(t16[i] == a);
    assert(t16[j] == s);
    assert(t16.len() >= t10.len());
}

/// A limit of zero or below — including the "all rows" sentinel — never
/// reaches the statement: two commands that differ only in such limits
/// build the same query.
pub proof fn lemma_limit_sentinel(v1: AggView, v2: AggView, from: Seq<char>)
    requires
        v1.limit <= 0,
        v2.limit <= 0,
        v2 == (AggView { limit: v2.limit, ..v1 }),
    ensures
        spec_build_query(v1, from) == spec_build_query(v2, from),
{
    assert(spec_column_parts(v1) == spec_column_parts(v2));
    assert(spec_query_parts(v1, from) == spec_query_parts(v2, from));
}

/// The count-distinct fragment of one column derives its alias from
/// `count`: the column is wrapped into a `distinct` term, and the alias is
/// the lowercased function name joined to that term with its space
/// underscored.
pub proof fn lemma_count_distinct_alias(c: Seq<char>)
    ensures
        spec_join_cols(distinct_prefixed(seq![c]), Option::Some("COUNT"@)) == upper_of(
            "COUNT"@,
        ) + "("@ + "distinct "@ + c + ") AS "@ + lower_of("COUNT"@) + "_"@
            + "distinct_"@ + underscored(c),
{
    let d = "distinct "@ + c;
    assert(distinct_prefixed(seq![c]) =~= seq![d]);
    lemma_aggregate_expression(d, "COUNT"@);
    reveal_strlit("distinct ");
    reveal_strlit("distinct_");
    assert(underscored(d) =~= "distinct_"@ + underscored(c));
    assert(upper_of("COUNT"@) + "("@ + d + ") AS "@ + lower_of(
        "COUNT"@,
    ) + "_"@ + underscored(d) =~= upper_of("COUNT"@) + "("@
        + "distinct "@ + c + ") AS "@ + lower_of("COUNT"@) + "_"@ + "distinct_"@
        + underscored(c));
}

fn push_binding(column_parts: &mut Vec<String>, columns: &Option<Vec<String>>, agg: Option<&str>)
    ensures
        final(column_parts).deep_view() == old(column_parts).deep_view() + opt_binding(
            columns.deep_view(),
            agg.deep_view(),
        ),
{
    let ghost prev = column_parts.deep_view();
    if let Option::Some(cols) = columns {
        let e = join_cols(cols.as_slice(), agg);
        column_parts.push(e);
        proof {
            assert(column_parts.deep_view() =~= prev + opt_binding(
                columns.deep_view(),
                agg.deep_view(),
            ));
        }
    } else {
        proof {
            assert(column_parts.deep_view() =~= prev + opt_binding(
                columns.deep_view(),
                agg.deep_view(),
            ));
        }
    }
}

impl Default for AggCommand {
    /// The flag defaults: no binding selected, and a limit of ten rows.
    fn default() -> (r: AggCommand)
        ensures
            r@ == (AggView {
                group_by: Option::None,
                count: Option::None,
                count_distinct: Option::None,
                avg: Option::None,
                geomean: Option::None,
                list: Option::None,
                histogram: Option::None,
                max: Option::None,
                min: Option::None,
                product: Option::None,
                sum: Option::None,
                corr: Option::None,
                entropy: Option::None,
                kurtosis: Option::None,
                mad: Option::None,
                median: Option::None,
                mode: Option::None,
                limit: 10,
                order_by: Option::None,
                write: Option::None,
            }),
    {
        AggCommand {
            group_by: Option::None,
            count: Option::None,
            count_distinct: Option::None,
            avg: Option::None,
            geomean: Option::None,
            list: Option::None,
            histogram: Option::None,
            max: Option::None,
            min: Option::None,
            product: Option::None,
            sum: Option::None,
            corr: Option::None,
            entropy: Option::None,
            kurtosis: Option::None,
            mad: Option::None,
            median: Option::None,
            mode: Option::None,
            limit: 10,
            order_by: Option::None,
            write: Option::None,
        }
    }
}

impl AggCommand {
    /// Assembles the aggregation statement for the given relation: the
    /// expression fragments of the present bindings in their fixed order,
    /// then `FROM`, a `GROUP BY` clause only when grouping columns were
    /// supplied, and a `LIMIT` clause only when the limit is strictly
    /// positive, all joined with newlines.
    pub fn build_query(&self, from: &str) -> (r: String)
        ensures
            r@ == spec_build_query(self@, from@),
    {
        let ghost v = self@;
        let mut column_parts: Vec<String> = Vec::new();
        if let Option::Some(columns) = &self.count_distinct {
            let mut prefixed: Vec<String> = Vec::new();
            let mut k: usize = 0;
            while k < columns.len()
                invariant
                    k <= columns.len(),
                    columns.deep_view().len() == columns@.len(),
                    prefixed.deep_view().len() == k,
                    forall|j: int|
                        0 <= j < k ==> prefixed.deep_view()[j] == "distinct "@
                            + columns.deep_view()[j],
                decreases columns.len() - k,
            {
                let mut p = String::from_str("distinct ");
                p.append(columns[k].as_str());
                let ghost prev = prefixed.deep_view();
                prefixed.push(p);
                proof {
                    assert(prefixed.deep_view() =~= prev.push(prefixed@[k as int]@));
                }
                k = k + 1;
            }
            proof {
                assert(prefixed.deep_view() =~= distinct_prefixed(columns.deep_view()));
            }
            let e = join_cols(prefixed.as_slice(), Option::Some("COUNT"));
            column_parts.push(e);
            proof {
                assert(column_parts.deep_view() =~= count_distinct_part(v));
            }
        } else {
            proof {
                assert(column_parts.deep_view() =~= count_distinct_part(v));
            }
        }
        push_binding(&mut column_parts, &self.group_by, Option::None);
        push_binding(&mut column_parts, &self.count, Option::Some("COUNT"));
        push_binding(&mut column_parts, &self.avg, Option::Some("AVG"));
        push_binding(&mut column_parts, &self.geomean, Option::Some("GEOMEAN"));
        push_binding(&mut column_parts, &self.list, Option::Some("LIST"));
        push_binding(&mut column_parts, &self.histogram, Option::Some("HISTOGRAM"));
        push_binding(&mut column_parts, &self.max, Option::Some("MAX"));
        push_binding(&mut column_parts, &self.min, Option::Some("MIN"));
        push_binding(&mut column_parts, &self.product, Option::Some("PRODUCT"));
        push_binding(&mut column_parts, &self.sum, Option::Some("SUM"));
        push_binding(&mut column_parts, &self.corr, Option::Some("CORR"));
        push_binding(&mut column_parts, &self.entropy, Option::Some("ENTROPY"));
        push_binding(&mut column_parts, &self.kurtosis, Option::Some("KURTOSIS"));
        push_binding(&mut column_parts, &self.mad, Option::Some("MAD"));
        push_binding(&mut column_parts, &self.median, Option::Some("MEDIAN"));
        push_binding(&mut column_parts, &self.mode, Option::Some("MODE"));
        proof {
            assert(column_parts.deep_view() == spec_column_parts(v));
        }

        let mut query_parts: Vec<String> = Vec::new();
        query_parts.push(String::from_str("SELECT"));
        query_parts.push(join_strings(column_parts.as_slice(), ",\n"));
        let mut from_clause = String::from_str("FROM ");
        from_clause.append(from);
        query_parts.push(from_clause);
        proof {
            assert(query_parts.deep_view() =~= seq![
                "SELECT"@,
                join_with(spec_column_parts(v), ",\n"@),
                "FROM "@ + from@,
            ]);
        }
        if let Option::Some(group_by) = &self.group_by {
            let mut g = String::from_str("GROUP BY ");
            let joined = join_strings(group_by.as_slice(), ", ");
            g.append(joined.as_str());
            let ghost prev = query_parts.deep_view();
            query_parts.push(g);
            proof {
                assert(query_parts.deep_view() =~= prev.push(
                    "GROUP BY "@ + join_with(group_by.deep_view(), ", "@),
                ));
            }
        }
        if self.limit > 0 {
            let mut l = String::from_str("LIMIT ");
            let digits = dec_string(self.limit);
            l.append(digits.as_str());
            let ghost prev = query_parts.deep_view();
            query_parts.push(l);
            proof {
                assert(query_parts.deep_view() =~= prev.push("LIMIT "@ + dec_of(v.limit)));
            }
        }
        proof {
            assert(query_parts.deep_view() =~= spec_query_parts(v, from@));
        }
        join_strings(query_parts.as_slice(), "\n")
    }
}

} // verus!

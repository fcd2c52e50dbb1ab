//! Joining column names and expression fragments into clause text.

use vstd::prelude::*;

use crate::casing::{lower_of, to_lower, to_upper, upper_of};

verus! {

/// Each comma and space replaced by an underscore, so that a composite
/// column expression (such as a correlation pair `"y,x"`) still yields an
/// identifier-shaped alias.
pub open spec fn underscored(c: Seq<char>) -> Seq<char> {
    c.map_values(|ch: char| if ch == ',' || ch == ' ' { '_' } else { ch })
}

/// The output-column expression for one column under an optional aggregate
/// function: the bare column name when no function applies, else
/// `F(c) AS f_c'` with `F` the uppercased and `f` the lowercased function
/// name and `c'` the column with separators underscored.
pub open spec fn expr_for(c: Seq<char>, agg: Option<Seq<char>>) -> Seq<char> {
    match agg {
        Option::None => c,
        Option::Some(f) => upper_of(f) + "("@ + c + ") AS "@ + lower_of(f) + "_"@ + underscored(
            c,
        ),
    }
}

/// The full expression list for one binding: each column's expression, the
/// expressions joined with `", "`.
pub open spec fn spec_join_cols(args: Seq<Seq<char>>, agg: Option<Seq<char>>) -> Seq<char> {
    join_with(args.map_values(|c: Seq<char>| expr_for(c, agg)), ", "@)
}

/// With no aggregate function, a binding's columns pass through unchanged:
/// the fragment is exactly the given names joined with `", "`.
pub proof fn lemma_plain_columns_pass_through(args: Seq<Seq<char>>)
    ensures
        spec_join_cols(args, Option::None) == join_with(args, ", "@),
{
    assert(args.map_values(|c: Seq<char>| expr_for(c, Option::None)) =~= args);
}

/// For any column `c` under any function `f`, the generated expression is
/// `F(c) AS f_c'`: the uppercased function name applied to the column as
/// given, aliased by the lowercased function name joined to the column with
/// its separators underscored.
pub proof fn lemma_aggregate_expression(c: Seq<char>, f: Seq<char>)
    ensures
        spec_join_cols(seq![c], Option::Some(f)) == upper_of(f) + "("@ + c + ") AS "@ + lower_of(f)
            + "_"@ + underscored(c),
{
    let parts = seq![c].map_values(|x: Seq<char>| expr_for(x, Option::Some(f)));
    assert(parts.len() == 1);
    assert(parts[0] == expr_for(c, Option::Some(f)));
}

fn underscore_separators(c: &str) -> (r: String)
    ensures
        r@ == underscored(c@),
{
    let n = c.unicode_len();
    let mut r = String::new();
    let mut i: usize = 0;
    while i < n
        invariant
            i <= n,
            n == c@.len(),
            r@.len() == i,
            forall|j: int|
                0 <= j < i ==> r@[j] == (if c@[j] == ',' || c@[j] == ' ' {
                    '_'
                } else {
                    c@[j]
                }),
        decreases n - i,
    {
        let ch = c.get_char(i);
        if ch == ',' || ch == ' ' {
            r.append("_");
            proof {
                reveal_strlit("_");
            }
        } else {
            r.append(c.substring_char(i, i + 1));
        }
        i = i + 1;
    }
    proof {
        assert(r@ =~= underscored(c@));
    }
    r
}

/// Builds the expression text of one column-function binding: with no
/// function each column name passes through unchanged; with a function each
/// column `c` becomes `F(c) AS f_c'`, and the expressions are joined with
/// `", "` in the order the columns were given.
pub fn join_cols(args: &[String], agg: Option<&str>) -> (r: String)
    ensures
        r@ == spec_join_cols(args.deep_view(), agg.deep_view()),
{
    let mut exprs: Vec<String> = Vec::new();
    let mut i: usize = 0;
    while i < args.len()
        invariant
            i <= args.len(),
            exprs.deep_view().len() == i,
            args.deep_view().len() == args@.len(),
            forall|j: int|
                0 <= j < i ==> exprs.deep_view()[j] == expr_for(
                    args.deep_view()[j],
                    agg.deep_view(),
                ),
        decreases args.len() - i,
    {
        let c = &args[i];
        let e: String = match agg {
            Option::Some(f) => {
                let mut e = to_upper(f);
                let low = to_lower(f);
                let und = underscore_separators(c.as_str());
                e.append("(");
                e.append(c.as_str());
                e.append(") AS ");
                e.append(low.as_str());
                e.append("_");
                e.append(und.as_str());
                e
            },
            Option::None => c.clone(),
        };
        let ghost prev = exprs.deep_view();
        proof {
            assert(e@ == expr_for(args.deep_view()[i as int], agg.deep_view()));
        }
        exprs.push(e);
        proof {
            assert(exprs.deep_view() =~= prev.push(exprs@[i as int]@));
        }
        i = i + 1;
    }
    proof {
        assert(exprs.deep_view() =~= args.deep_view().map_values(
            |c: Seq<char>| expr_for(c, agg.deep_view()),
        ));
    }
    join_strings(exprs.as_slice(), ", ")
}

/// The parts joined into one sequence with `sep` between consecutive parts.
pub open spec fn join_with(parts: Seq<Seq<char>>, sep: Seq<char>) -> Seq<char>
    decreases parts.len(),
{
    if parts.len() == 0 {
        Seq::empty()
    } else if parts.len() == 1 {
        parts[0]
    } else {
        parts[0] + sep + join_with(parts.drop_first(), sep)
    }
}

/// Appending one more part to a join extends the text by a separator and
/// that part (or is just that part when nothing was joined yet).
pub proof fn lemma_join_with_push(parts: Seq<Seq<char>>, sep: Seq<char>, last: Seq<char>)
    ensures
        join_with(parts.push(last), sep) == if parts.len() == 0 {
            last
        } else {
            join_with(parts, sep) + sep + last
        },
    decreases parts.len(),
{
    if parts.len() == 0 {
        assert(parts.push(last).len() == 1);
        assert(parts.push(last)[0] == last);
    } else {
        assert(parts.push(last).drop_first() =~= parts.drop_first().push(last));
        lemma_join_with_push(parts.drop_first(), sep, last);
        if parts.len() == 1 {
            assert(join_with(parts.push(last), sep) == parts[0] + sep + last);
        } else {
            assert(join_with(parts.push(last), sep) == parts[0] + sep + (join_with(
                parts.drop_first(),
                sep,
            ) + sep + last));
            assert(parts[0] + sep + (join_with(parts.drop_first(), sep) + sep + last) =~= (parts[0]
                + sep + join_with(parts.drop_first(), sep)) + sep + last);
        }
    }
}

/// Joins the parts with the separator, in order.
pub fn join_strings(parts: &[String], sep: &str) -> (r: String)
    ensures
        r@ == join_with(parts.deep_view(), sep@),
{
    let ghost all: Seq<Seq<char>> = parts.deep_view();
    let mut r = String::new();
    let mut i: usize = 0;
    while i < parts.len()
        invariant
            i <= parts.len(),
            all == parts.deep_view(),
            all.len() == parts@.len(),
            r@ == join_with(all.take(i as int), sep@),
        decreases parts.len() - i,
    {
        if i > 0 {
            r.append(sep);
        }
        r.append(parts[i].as_str());
        proof {
            lemma_join_with_push(all.take(i as int), sep@, all[i as int]);
            assert(all.take(i as int).push(all[i as int]) =~= all.take(i + 1));
        }
        i = i + 1;
    }
    proof {
        assert(all.take(parts.len() as int) =~= all);
    }
    r
}

} // verus!


//! The column-projection command and its filter-clause builder.

use vstd::prelude::*;

use crate::utils::join_with;

verus! {

/// Options of the projection subcommand.  The projection itself performs no
/// work yet: it is declared for the command surface, and no statement is
/// built from it.
pub struct SelectCommand {
    pub columns: Vec<String>,
    pub limit: i128,
    pub where_: Option<WhereCommand>,
    pub output: Option<Vec<String>>,
}

/// A filter clause: one leading condition, then further conditions joined
/// with `AND`, then alternatives joined with `OR`.
pub struct WhereCommand {
    pub where_: String,
    pub and: Option<Vec<String>>,
    pub or: Option<Vec<String>>,
}

/// `[kw, c1, kw, c2, ...]`: each condition preceded by the keyword.
pub open spec fn keyword_pairs(kw: Seq<char>, conds: Seq<Seq<char>>) -> Seq<Seq<char>> {
    Seq::new(
        2 * conds.len(),
        |i: int|
            if i % 2 == 0 {
                kw
            } else {
                conds[i / 2]
            },
    )
}

/// The words of the clause in order.  The `OR` conditions are emitted only
/// when `AND` conditions are present as well, as the builder has always
/// behaved.
pub open spec fn spec_where_parts(
    w: Seq<char>,
    and: Option<Seq<Seq<char>>>,
    or: Option<Seq<Seq<char>>>,
) -> Seq<Seq<char>> {
    let base = seq!["WHERE"@, w];
    match and {
        Option::None => base,
        Option::Some(ands) => {
            let with_ands = base + keyword_pairs("AND"@, ands);
            match or {
                Option::None => with_ands,
                Option::Some(ors) => with_ands + keyword_pairs("OR"@, ors),
            }
        },
    }
}

impl WhereCommand {
    /// The full clause text: the words joined with single spaces.
    pub open spec fn clause(self) -> Seq<char> {
        join_with(spec_where_parts(self.where_@, self.and.deep_view(), self.or.deep_view()), " "@)
    }

    /// Builds the filter clause: `WHERE <cond>`, each further `AND`
    /// condition appended in order, and `OR` conditions after them.
    pub fn build(&self) -> (r: String)
        ensures
            r@ == self.clause(),
    {
        let ghost and_view = self.and.deep_view();
        let ghost or_view = self.or.deep_view();
        let ghost base: Seq<Seq<char>> = seq!["WHERE"@, self.where_@];
        let mut parts: Vec<String> = Vec::new();
        parts.push(String::from_str("WHERE"));
        parts.push(self.where_.clone());
        proof {
            assert(parts.deep_view() =~= base);
        }
        if let Option::Some(conditions) = &self.and {
            let mut k: usize = 0;
            while k < conditions.len()
                invariant
                    k <= conditions.len(),
                    and_view == Option::Some(conditions.deep_view()),
                    conditions.deep_view().len() == conditions@.len(),
                    parts.deep_view() =~= base + keyword_pairs(
                        "AND"@,
                        conditions.deep_view().take(k as int),
                    ),
                decreases conditions.len() - k,
            {
                let ghost prev = parts.deep_view();
                parts.push(String::from_str("AND"));
                parts.push(conditions[k].clone());
                proof {
                    assert(parts.deep_view() =~= prev.push("AND"@).push(
                        conditions.deep_view()[k as int],
                    ));
                    assert(parts.deep_view() =~= base + keyword_pairs(
                        "AND"@,
                        conditions.deep_view().take(k + 1),
                    ));
                }
                k = k + 1;
            }
            proof {
                assert(conditions.deep_view().take(conditions@.len() as int) =~= conditions.deep_view());
            }
            let ghost with_ands = parts.deep_view();
            if let Option::Some(conditions) = &self.or {
                let mut k: usize = 0;
                while k < conditions.len()
                    invariant
                        k <= conditions.len(),
                        or_view == Option::Some(conditions.deep_view()),
                        conditions.deep_view().len() == conditions@.len(),
                        parts.deep_view() =~= with_ands + keyword_pairs(
                            "OR"@,
                            conditions.deep_view().take(k as int),
                        ),
                    decreases conditions.len() - k,
                {
                    let ghost prev = parts.deep_view();
                    parts.push(String::from_str("OR"));
                    parts.push(conditions[k].clone());
                    proof {
                        assert(parts.deep_view() =~= prev.push("OR"@).push(
                            conditions.deep_view()[k as int],
                        ));
                        assert(parts.deep_view() =~= with_ands + keyword_pairs(
                            "OR"@,
                            conditions.deep_view().take(k + 1),
                        ));
                    }
                    k = k + 1;
                }
                proof {
                    assert(conditions.deep_view().take(conditions@.len() as int)
                        =~= conditions.deep_view());
                }
            }
        }
        proof {
            assert(parts.deep_view() =~= spec_where_parts(self.where_@, and_view, or_view));
        }
        crate::utils::join_strings(parts.as_slice(), " ")
    }
}

} // verus!

//! Resolving a data-source file name into a relation expression.
//!
//! The file name is scanned for the first occurrence of one of the dotted
//! format tokens `.csv`, `.parquet`, `.json`, `.ndjson` (a plain substring
//! search, not an anchored suffix match), and the matching token picks the
//! table-valued read function that wraps the path.  A name with no token
//! passes through verbatim, supporting native table references.

use vstd::prelude::*;

verus! {

/// The token's characters stand at position `i` of `s`.
pub open spec fn matches_at(s: Seq<char>, i: int, tok: Seq<char>) -> bool {
    0 <= i && i + tok.len() <= s.len() && s.subrange(i, i + tok.len()) == tok
}

/// The format token standing at position `i`, if any.  At most one of the
/// four can match at a given position, since they differ right after the
/// dot.
pub open spec fn token_at(s: Seq<char>, i: int) -> Option<Seq<char>> {
    if matches_at(s, i, ".csv"@) {
        Option::Some(".csv"@)
    } else if matches_at(s, i, ".parquet"@) {
        Option::Some(".parquet"@)
    } else if matches_at(s, i, ".json"@) {
        Option::Some(".json"@)
    } else if matches_at(s, i, ".ndjson"@) {
        Option::Some(".ndjson"@)
    } else {
        Option::None
    }
}

/// The leftmost format token at or after position `i`.
pub open spec fn first_token_from(s: Seq<char>, i: int) -> Option<Seq<char>>
    decreases s.len() - i,
    when 0 <= i <= s.len()
{
    if i >= s.len() {
        Option::None
    } else if token_at(s, i) is Some {
        token_at(s, i)
    } else {
        first_token_from(s, i + 1)
    }
}

/// The leftmost format token anywhere in the file name.
pub open spec fn first_format_token(s: Seq<char>) -> Option<Seq<char>> {
    first_token_from(s, 0)
}

/// The relation expression for a source path whose file name is `name`:
/// a read-function call wrapping the path when a format token occurs in the
/// name, else the path verbatim.
pub open spec fn spec_relation_expr(path: Seq<char>, name: Seq<char>) -> Seq<char> {
    let t = first_format_token(name);
    if t == Option::Some(".parquet"@) {
        "READ_PARQUET('"@ + path + "')"@
    } else if t == Option::Some(".csv"@) {
        "READ_CSV_AUTO('"@ + path + "')"@
    } else if t == Option::Some(".json"@) {
        "READ_JSON_AUTO('"@ + path + "')"@
    } else if t == Option::Some(".ndjson"@) {
        "READ_NDJSON_AUTO('"@ + path + "')"@
    } else {
        path
    }
}

fn has_token_at(s: &str, i: usize, tok: &str) -> (r: bool)
    ensures
        r == matches_at(s@, i as int, tok@),
{
    let n = s.unicode_len();
    let m = tok.unicode_len();
    if i > n || m > n - i {
        return false;
    }
    let mut j: usize = 0;
    while j < m
        invariant
            j <= m,
            m == tok@.len(),
            n == s@.len(),
            i + m <= n,
            forall|k: int| 0 <= k < j ==> s@[i + k] == tok@[k],
        decreases m - j,
    {
        if s.get_char(i + j) != tok.get_char(j) {
            proof {
                assert(s@.subrange(i as int, i as int + m as int)[j as int] == s@[i + j]);
            }
            return false;
        }
        j = j + 1;
    }
    proof {
        assert(s@.subrange(i as int, i as int + m as int) =~= tok@);
    }
    true
}

fn wrap_reader(reader_open: &str, path: &str) -> (r: String)
    ensures
        r@ == reader_open@ + path@ + "')"@,
{
    let mut r = String::from_str(reader_open);
    r.append(path);
    r.append("')");
    r
}

/// Resolves the source into the text every clause uses for "the input":
/// `READ_<FORMAT>('<path>')` when the file name carries a recognized
/// extension token, the literal path otherwise.
pub fn relation_expr(path: &str, file_name: &str) -> (r: String)
    ensures
        r@ == spec_relation_expr(path@, file_name@),
{
    let ghost s = file_name@;
    let n = file_name.unicode_len();
    let mut i: usize = 0;
    while i < n
        invariant
            i <= n,
            n == s.len(),
            s == file_name@,
            first_token_from(s, 0) == first_token_from(s, i as int),
        decreases n - i,
    {
        if has_token_at(file_name, i, ".csv") {
            proof {
                reveal_strlit(".csv");
                reveal_strlit(".parquet");
                assert(first_token_from(s, i as int) == Option::Some(".csv"@));
            }
            return wrap_reader("READ_CSV_AUTO('", path);
        }
        if has_token_at(file_name, i, ".parquet") {
            proof {
                assert(first_token_from(s, i as int) == Option::Some(".parquet"@));
            }
            return wrap_reader("READ_PARQUET('", path);
        }
        if has_token_at(file_name, i, ".json") {
            proof {
                reveal_strlit(".json");
                reveal_strlit(".parquet");
                assert(first_token_from(s, i as int) == Option::Some(".json"@));
            }
            return wrap_reader("READ_JSON_AUTO('", path);
        }
        if has_token_at(file_name, i, ".ndjson") {
            proof {
                reveal_strlit(".ndjson");
                reveal_strlit(".parquet");
                reveal_strlit(".csv");
                reveal_strlit(".json");
                assert(first_token_from(s, i as int) == Option::Some(".ndjson"@));
            }
            return wrap_reader("READ_NDJSON_AUTO('", path);
        }
        i = i + 1;
    }
    String::from_str(path)
}

/// The schema-introspection statement for a relation.
pub fn describe_query(from: &str) -> (r: String)
    ensures
        r@ == "DESCRIBE SELECT * FROM "@ + from@,
{
    let mut r = String::from_str("DESCRIBE SELECT * FROM ");
    r.append(from);
    r
}

} // verus!

//! Batch insert builder: the parameterized SQL text this engine hands to the
//! store.  For `n` filtered issues one statement inserts `n` rows, each row's
//! five placeholders numbered as a 1-indexed block (`($1, $2, $3, $4, $5),
//! ($6, ...)`), so positional correctness holds for any row count.

use vstd::prelude::*;
use crate::types::Repository;

verus! {

/// The decimal digit character of `d`.
pub open spec fn digit_char(d: nat) -> char
    recommends
        d <= 9,
{
    ((d + 48) as u8) as char
}

/// The decimal text of `n`, most significant digit first.
pub open spec fn dec_str(n: nat) -> Seq<char>
    decreases n,
{
    if n < 10 {
        seq![digit_char(n)]
    } else {
        dec_str(n / 10).push(digit_char(n % 10))
    }
}

/// The 1-indexed parameter number of column `col` in row `row`.
pub open spec fn param_index(row: nat, cols: nat, col: nat) -> nat {
    row * cols + col + 1
}

/// The text of the first `j` placeholders of row `row`, separated by `, `.
pub open spec fn row_params_text(row: nat, cols: nat, j: nat) -> Seq<char>
    decreases j,
{
    if j == 0 {
        Seq::empty()
    } else {
        let p = seq!['$'] + dec_str(param_index(row, cols, (j - 1) as nat));
        if j == 1 {
            p
        } else {
            row_params_text(row, cols, (j - 1) as nat) + seq![',', ' '] + p
        }
    }
}

/// The parenthesized placeholder block of row `row`.
pub open spec fn row_text(row: nat, cols: nat) -> Seq<char> {
    seq!['('] + row_params_text(row, cols, cols) + seq![')']
}

/// The placeholder blocks of the first `rows` rows, separated by `, `.
pub open spec fn placeholders_text(rows: nat, cols: nat) -> Seq<char>
    decreases rows,
{
    if rows == 0 {
        Seq::empty()
    } else if rows == 1 {
        row_text(0, cols)
    } else {
        placeholders_text((rows - 1) as nat, cols) + seq![',', ' '] + row_text(
            (rows - 1) as nat,
            cols,
        )
    }
}

/// Appends one decimal digit to `out`.
fn append_digit(out: &mut String, d: u64)
    requires
        d <= 9,
    ensures
        final (out)@ == old(out)@ + seq![digit_char(d as nat)],
{
    proof {
        reveal_strlit("0");
        reveal_strlit("1");
        reveal_strlit("2");
        reveal_strlit("3");
        reveal_strlit("4");
        reveal_strlit("5");
        reveal_strlit("6");
        reveal_strlit("7");
        reveal_strlit("8");
        reveal_strlit("9");
    }
    if d == 0 {
        out.append("0");
    } else if d == 1 {
        out.append("1");
    } else if d == 2 {
        out.append("2");
    } else if d == 3 {
        out.append("3");
    } else if d == 4 {
        out.append("4");
    } else if d == 5 {
        out.append("5");
    } else if d == 6 {
        out.append("6");
    } else if d == 7 {
        out.append("7");
    } else if d == 8 {
        out.append("8");
    } else {
        out.append("9");
    }
}

/// Appends the decimal text of `n` to `out`.
fn append_decimal(out: &mut String, n: u64)
    ensures
        final (out)@ == old(out)@ + dec_str(n as nat),
    decreases n,
{
    if n >= 10 {
        append_decimal(out, n / 10);
        append_digit(out, n % 10);
        proof {
            assert(out@ =~= old(out)@ + dec_str(n as nat));
        }
    } else {
        append_digit(out, n);
    }
}

/// Builds the placeholder text for `rows` rows of `cols` parameters each,
/// exactly as [`placeholders_text`] describes.
pub fn placeholders(rows: usize, cols: usize) -> (r: String)
    requires
        rows * cols <= u64::MAX,
    ensures
        r@ == placeholders_text(rows as nat, cols as nat),
{
    let mut s = String::new();
    let mut i: usize = 0;
    while i < rows
        invariant
            i <= rows,
            rows * cols <= u64::MAX,
            s@ == placeholders_text(i as nat, cols as nat),
        decreases rows - i,
    {
        let ghost outer: Seq<char> = s@;
        if i > 0 {
            proof {
                reveal_strlit(", ");
            }
            s.append(", ");
        }
        proof {
            reveal_strlit("(");
        }
        s.append("(");
        let ghost row_base: Seq<char> = s@;
        let mut j: usize = 0;
        while j < cols
            invariant
                j <= cols,
                i < rows,
                rows * cols <= u64::MAX,
                s@ == row_base + row_params_text(i as nat, cols as nat, j as nat),
            decreases cols - j,
        {
            if j > 0 {
                proof {
                    reveal_strlit(", ");
                }
                s.append(", ");
            }
            proof {
                reveal_strlit("$");
            }
            s.append("$");
            proof {
                assert((i as nat) * (cols as nat) + (j as nat) + 1 <= (rows as nat) * (cols as nat))
                    by (nonlinear_arith)
                    requires
                        i < rows,
                        j < cols,
                ;
            }
            let index: u64 = (i as u64) * (cols as u64) + (j as u64) + 1;
            append_decimal(&mut s, index);
            proof {
                assert(index as nat == param_index(i as nat, cols as nat, j as nat));
                assert(s@ =~= row_base + row_params_text(i as nat, cols as nat, j as nat + 1));
            }
            j = j + 1;
        }
        proof {
            reveal_strlit(")");
        }
        s.append(")");
        proof {
            assert(s@ =~= placeholders_text(i as nat + 1, cols as nat));
        }
        i = i + 1;
    }
    s
}

/// The full batch-insert statement for `n` issue rows.
pub open spec fn issues_insert_query_text(n: nat) -> Seq<char> {
    "INSERT INTO issues (number, title, labels, repository_id, issue_created_at) VALUES "@
        + placeholders_text(n, 5)
}

/// Builds the single parameterized multi-row insert covering `n` filtered
/// issues, exactly as [`issues_insert_query_text`] describes.
pub fn issues_insert_query(n: usize) -> (r: String)
    requires
        n * 5 <= u64::MAX,
    ensures
        r@ == issues_insert_query_text(n as nat),
{
    let mut s = String::from_str(
        "INSERT INTO issues (number, title, labels, repository_id, issue_created_at) VALUES ",
    );
    let tail = placeholders(n, 5);
    s.append(tail.as_str());
    s
}

impl Repository {
    /// The statement inserting one repository row and returning its
    /// generated id.
    pub fn insert_respository_query(&self) -> (r: &'static str)
        ensures
            r@ == ("
        INSERT INTO repositories (slug, project_id)
        VALUES ($1, $2)
        RETURNING id;
        ")@,
    {
        let query_string = "
        INSERT INTO repositories (slug, project_id)
        VALUES ($1, $2)
        RETURNING id;
        ";
        return query_string;
    }
}

} // verus!

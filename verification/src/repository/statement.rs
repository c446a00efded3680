//! Statements that change some columns of one row.

use vstd::prelude::*;
use vstd::string::StringExecFns;

verus! {

/// The assignments of a statement: for each column its name and a placeholder, with a
/// comma and a space between one assignment and the next.
pub open spec fn assignments_text(columns: Seq<Seq<char>>) -> Seq<char>
    decreases columns.len(),
{
    if columns.len() == 0 {
        Seq::empty()
    } else if columns.len() == 1 {
        columns[0] + " = ?"@
    } else {
        assignments_text(columns.drop_last()) + ", "@ + columns.last() + " = ?"@
    }
}

/// The statement that gives the row of `table` with a given id new values in
/// `columns` and marks the row as changed now. The placeholders stand for the new
/// values, in the order of the columns, and then for the id.
pub open spec fn update_statement_text(table: Seq<char>, columns: Seq<Seq<char>>) -> Seq<char> {
    "UPDATE "@ + table + " SET "@ + assignments_text(columns)
        + ", updated_at = CURRENT_TIMESTAMP WHERE id = ?"@
}

/// The statement that changes `columns` of one row of `table`; none where there is no
/// column to change.
pub fn update_statement(table: &str, columns: &Vec<&'static str>) -> (statement: Option<String>)
    ensures
        statement is Some <==> columns@.len() > 0,
        statement matches Some(text) ==> text@ == update_statement_text(
            table@,
            columns.deep_view(),
        ),
{
    if columns.len() == 0 {
        return None;
    }
    let mut text = String::from_str("UPDATE ");
    text.append(table);
    text.append(" SET ");
    let ghost start = text@;
    let mut i: usize = 0;
    while i < columns.len()
        invariant
            i <= columns.len(),
            text@ == start + assignments_text(columns.deep_view().take(i as int)),
        decreases columns.len() - i,
    {
        if i > 0 {
            text.append(", ");
        }
        text.append(columns[i]);
        text.append(" = ?");
        proof {
            let head = columns.deep_view().take(i as int);
            let next = columns.deep_view().take(i + 1);
            assert(next.drop_last() =~= head);
            assert(next.last() == columns[i as int]@);
            assert(text@ =~= start + assignments_text(next));
        }
        i += 1;
    }
    assert(columns.deep_view().take(columns.len() as int) =~= columns.deep_view());
    text.append(", updated_at = CURRENT_TIMESTAMP WHERE id = ?");
    Some(text)
}

} // verus!

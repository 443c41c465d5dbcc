//! The text that a result is printed as.
//!
//! A cell is either a text value or absent. Every cell is printed as one
//! token with a single space in front of it: the value itself, or the word
//! `NULL` for an absent one. The cells of a row follow one another from the
//! first column to the last, the rows follow one another with nothing in
//! between, so a whole result is one unbroken stream of such tokens.

use vstd::prelude::*;
use vstd::string::StringExecFns;

verus! {

/// The word printed in place of an absent value.
pub open spec fn null_marker() -> Seq<char> {
    "NULL"@
}

/// The token of a cell: its value, or the marker where it has none.
pub open spec fn token(cell: Option<Seq<char>>) -> Seq<char> {
    match cell {
        Some(value) => value,
        None => null_marker(),
    }
}

/// What one cell is printed as: a space, then its token.
pub open spec fn cell_text(cell: Option<Seq<char>>) -> Seq<char> {
    " "@ + token(cell)
}

/// What a run of cells is printed as: the text of each, in order.
pub open spec fn cells_text(cells: Seq<Option<Seq<char>>>) -> Seq<char>
    decreases cells.len(),
{
    if cells.len() == 0 {
        Seq::empty()
    } else {
        cells_text(cells.drop_last()) + cell_text(cells.last())
    }
}

/// What a whole result is printed as: its cells in row-major order, with
/// no separator between one row and the next.
pub open spec fn rows_text(rows: Seq<Seq<Option<Seq<char>>>>) -> Seq<char> {
    cells_text(rows.flatten())
}

/// The line that reports a statement which returned no result set.
pub open spec fn no_data_notice(sql: Seq<char>) -> Seq<char> {
    "statement `"@ + sql + "` resulted in no returned data\n"@
}

/// Appending one cell to a run appends its text.
pub proof fn lemma_cells_text_push(cells: Seq<Option<Seq<char>>>, cell: Option<Seq<char>>)
    ensures
        cells_text(cells.push(cell)) == cells_text(cells) + cell_text(cell),
{
    assert(cells.push(cell).drop_last() =~= cells);
    assert(cells.push(cell).last() == cell);
}

/// The text of two runs of cells put together is the text of the first
/// followed by the text of the second.
pub proof fn lemma_cells_text_concat(
    front: Seq<Option<Seq<char>>>,
    back: Seq<Option<Seq<char>>>,
)
    ensures
        cells_text(front + back) == cells_text(front) + cells_text(back),
    decreases back.len(),
{
    if back.len() == 0 {
        assert(front + back =~= front);
        assert(cells_text(front) + cells_text(back) =~= cells_text(front));
    } else {
        lemma_cells_text_concat(front, back.drop_last());
        assert((front + back).drop_last() =~= front + back.drop_last());
        assert((front + back).last() == back.last());
        assert(cells_text(front + back) =~= cells_text(front) + cells_text(back));
    }
}

/// Appending one row to a result appends the text of its cells.
pub proof fn lemma_rows_text_push(
    rows: Seq<Seq<Option<Seq<char>>>>,
    row: Seq<Option<Seq<char>>>,
)
    ensures
        rows_text(rows.push(row)) == rows_text(rows) + cells_text(row),
{
    rows.lemma_flatten_push(row);
    lemma_cells_text_concat(rows.flatten(), row);
}

/// An absent value is printed as a space and the four letters `NULL`:
/// never as nothing, and never as a bare space.
pub proof fn lemma_null_is_spelled_out()
    ensures
        token(None) == seq!['N', 'U', 'L', 'L'],
        cell_text(None) == seq![' ', 'N', 'U', 'L', 'L'],
{
    reveal_strlit("NULL");
    reveal_strlit(" ");
    assert(token(None) =~= seq!['N', 'U', 'L', 'L']);
    assert(cell_text(None) =~= seq![' ', 'N', 'U', 'L', 'L']);
}

/// No cell is left out: each is printed as one space followed by its token.
pub proof fn lemma_cell_text_shape(cell: Option<Seq<char>>)
    ensures
        cell_text(cell).len() == 1 + token(cell).len(),
        cell_text(cell)[0] == ' ',
        cell_text(cell).skip(1) == token(cell),
{
    reveal_strlit(" ");
    assert(cell_text(cell).skip(1) =~= token(cell));
}

/// The cells of a result whose rows all have `columns` cells stand in
/// row-major order: as many as rows times columns, and the cell of row `r`
/// and column `c` (both counted from 0) at place `r * columns + c`. So the
/// printed text holds one group of `columns` tokens for each row, and
/// within a group the columns in ascending order.
pub proof fn lemma_cells_stand_row_by_row(rows: Seq<Seq<Option<Seq<char>>>>, columns: nat)
    requires
        forall|r: int| 0 <= r < rows.len() ==> (#[trigger] rows[r]).len() == columns,
    ensures
        rows.flatten().len() == rows.len() * columns,
        forall|r: int, c: int|
            0 <= r < rows.len() && 0 <= c < columns ==> rows.flatten()[r * columns + c]
                == #[trigger] rows[r][c],
    decreases rows.len(),
{
    if rows.len() == 0 {
        assert(rows.flatten() =~= Seq::empty());
        assert(rows.len() * columns == 0) by (nonlinear_arith)
            requires
                rows.len() == 0,
        ;
    } else {
        let front = rows.drop_last();
        let row = rows.last();
        lemma_cells_stand_row_by_row(front, columns);
        assert(rows =~= front.push(row));
        front.lemma_flatten_push(row);
        assert(rows.flatten() =~= front.flatten() + row);
        assert(rows.len() * columns == front.len() * columns + columns) by (nonlinear_arith)
            requires
                rows.len() == front.len() + 1,
        ;
        assert forall|r: int, c: int| 0 <= r < rows.len() && 0 <= c < columns implies rows.flatten()[r
            * columns + c] == #[trigger] rows[r][c] by {
            if r < front.len() {
                assert(r * columns + c < front.len() * columns) by (nonlinear_arith)
                    requires
                        0 <= r < front.len(),
                        0 <= c < columns,
                ;
                assert(0 <= r * columns + c) by (nonlinear_arith)
                    requires
                        0 <= r,
                        0 <= c,
                        0 <= columns,
                ;
                assert(front[r] == rows[r]);
                assert(front.flatten()[r * columns + c] == front[r][c]);
            } else {
                assert(r * columns + c == front.len() * columns + c) by (nonlinear_arith)
                    requires
                        r == front.len(),
                ;
            }
        }
    }
}

/// The notice is one line: it ends with a line break and, for a statement
/// text that holds none, has no other.
pub proof fn lemma_notice_is_one_line(sql: Seq<char>)
    requires
        forall|i: int| 0 <= i < sql.len() ==> sql[i] != '\n',
    ensures
        no_data_notice(sql).len() == sql.len() + 42,
        no_data_notice(sql).last() == '\n',
        forall|i: int|
            0 <= i < no_data_notice(sql).len() - 1 ==> no_data_notice(sql)[i] != '\n',
{
    reveal_strlit("statement `");
    reveal_strlit("` resulted in no returned data\n");
    let head = "statement `"@;
    let tail = "` resulted in no returned data\n"@;
    let notice = no_data_notice(sql);
    assert(head.len() == 11);
    assert(tail.len() == 31);
    assert forall|i: int| 0 <= i < notice.len() - 1 implies notice[i] != '\n' by {
        if i < 11 {
            assert(notice[i] == head[i]);
        } else if i < 11 + sql.len() {
            assert(notice[i] == sql[i - 11]);
        } else {
            assert(notice[i] == tail[i - 11 - sql.len()]);
        }
    }
}

/// Prints one cell: a space, then the value, or `NULL` where there is none.
pub fn render_cell(cell: &Option<String>) -> (text: String)
    ensures
        text@ == cell_text(cell.deep_view()),
{
    let mut text = String::from_str(" ");
    match cell {
        Some(value) => text.append(value.as_str()),
        None => text.append("NULL"),
    }
    text
}

/// Prints the cells of one row, from the first column to the last.
pub fn render_row(row: &Vec<Option<String>>) -> (text: String)
    ensures
        text@ == cells_text(row.deep_view()),
{
    let mut text = String::new();
    let mut i: usize = 0;
    while i < row.len()
        invariant
            i <= row.len(),
            text@ == cells_text(row.deep_view().take(i as int)),
        decreases row.len() - i,
    {
        let piece = render_cell(&row[i]);
        proof {
            let cells = row.deep_view();
            assert(cells.take(i + 1) =~= cells.take(i as int).push(cells[i as int]));
            lemma_cells_text_push(cells.take(i as int), cells[i as int]);
        }
        text.append(piece.as_str());
        i += 1;
    }
    proof {
        assert(row.deep_view().take(row.len() as int) =~= row.deep_view());
    }
    text
}

/// Prints a whole result: row after row, each from its first column to its
/// last, as one stream of tokens.
pub fn render_rows(rows: &Vec<Vec<Option<String>>>) -> (text: String)
    ensures
        text@ == rows_text(rows.deep_view()),
{
    let mut text = String::new();
    let mut i: usize = 0;
    proof {
        assert(rows.deep_view().take(0).flatten() =~= Seq::empty());
    }
    while i < rows.len()
        invariant
            i <= rows.len(),
            text@ == rows_text(rows.deep_view().take(i as int)),
        decreases rows.len() - i,
    {
        let piece = render_row(&rows[i]);
        proof {
            let table = rows.deep_view();
            assert(table.take(i + 1) =~= table.take(i as int).push(table[i as int]));
            lemma_rows_text_push(table.take(i as int), table[i as int]);
        }
        text.append(piece.as_str());
        i += 1;
    }
    proof {
        assert(rows.deep_view().take(rows.len() as int) =~= rows.deep_view());
    }
    text
}

/// The line that tells that `sql` was executed and returned no result set.
pub fn render_no_data(sql: &str) -> (line: String)
    ensures
        line@ == no_data_notice(sql@),
{
    let mut line = String::from_str("statement `");
    line.append(sql);
    line.append("` resulted in no returned data\n");
    line
}

} // verus!

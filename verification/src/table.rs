//! Aligned columns.
//!
//! A table is a header and rows of cells of the same arity. The width of a
//! column is fixed by the cells passed to one call: the longest of them, the
//! header's included, plus a gutter. Each cell is written flush left and
//! filled with blanks to the width of its column, so that the columns of all
//! lines start at the same positions.

use vstd::prelude::*;
use vstd::string::*;
use crate::text::{
    free_of, lemma_padded_free_of, pad_right, push_padded, push_spaces, spaces, views,
};

verus! {

/// Blanks that part a column from the next, beyond its longest cell.
pub const GUTTER: usize = 2;

/// The cells of a table's rows, by their views.
pub open spec fn grid(rows: Seq<Vec<String>>) -> Seq<Seq<Seq<char>>> {
    Seq::new(rows.len(), |r: int| views(rows[r]@))
}

/// Every row has one cell for each cell of the header.
pub open spec fn rectangular(header: Seq<Seq<char>>, rows: Seq<Seq<Seq<char>>>) -> bool {
    forall|r: int| 0 <= r < rows.len() ==> (#[trigger] rows[r]).len() == header.len()
}

/// The length of the longest cell in column `col`, the header's counted.
pub open spec fn content_width(header: Seq<Seq<char>>, rows: Seq<Seq<Seq<char>>>, col: int) -> nat
    decreases rows.len(),
{
    if rows.len() == 0 {
        header[col].len()
    } else {
        let above = content_width(header, rows.drop_last(), col);
        let here = rows.last()[col].len();
        if here > above {
            here
        } else {
            above
        }
    }
}

/// The width of column `col`: its longest cell and the gutter.
pub open spec fn column_width(header: Seq<Seq<char>>, rows: Seq<Seq<Seq<char>>>, col: int) -> nat {
    content_width(header, rows, col) + GUTTER as nat
}

/// The widths of all columns of a table.
pub open spec fn column_widths(header: Seq<Seq<char>>, rows: Seq<Seq<Seq<char>>>) -> Seq<nat> {
    Seq::new(header.len(), |c: int| column_width(header, rows, c))
}

/// The first `n` cells of a line, each filled to the width of its column.
pub open spec fn line_prefix(cells: Seq<Seq<char>>, widths: Seq<nat>, n: nat) -> Seq<char>
    decreases n,
{
    if n == 0 {
        Seq::empty()
    } else {
        line_prefix(cells, widths, (n - 1) as nat) + pad_right(cells[n - 1], widths[n - 1])
    }
}

/// One line of a table: all its cells, each filled to the width of its
/// column.
pub open spec fn row_line(cells: Seq<Seq<char>>, widths: Seq<nat>) -> Seq<char> {
    line_prefix(cells, widths, cells.len())
}

/// The lines of a table: the header's, then one for each row.
pub open spec fn table_lines(header: Seq<Seq<char>>, rows: Seq<Seq<Seq<char>>>) -> Seq<Seq<char>> {
    Seq::new(
        rows.len() + 1,
        |i: int|
            if i == 0 {
                row_line(header, column_widths(header, rows))
            } else {
                row_line(rows[i - 1], column_widths(header, rows))
            },
    )
}

/// The cells of line `i` of a table: the header's for the first line, a
/// row's for each line after it.
pub open spec fn line_cells(header: Seq<Seq<char>>, rows: Seq<Seq<Seq<char>>>, i: int) -> Seq<
    Seq<char>,
> {
    if i == 0 {
        header
    } else {
        rows[i - 1]
    }
}

/// Where column `col` begins in a line: behind the columns before it.
pub open spec fn column_start(widths: Seq<nat>, col: nat) -> nat
    decreases col,
{
    if col == 0 {
        0
    } else {
        column_start(widths, (col - 1) as nat) + widths[col - 1]
    }
}

/// The content width of a column is an upper bound of its cells' lengths.
pub proof fn lemma_content_width_bounds(
    header: Seq<Seq<char>>,
    rows: Seq<Seq<Seq<char>>>,
    col: int,
)
    ensures
        header[col].len() <= content_width(header, rows, col),
        forall|r: int|
            0 <= r < rows.len() ==> (#[trigger] rows[r])[col].len() <= content_width(
                header,
                rows,
                col,
            ),
    decreases rows.len(),
{
    if rows.len() > 0 {
        lemma_content_width_bounds(header, rows.drop_last(), col);
        assert forall|r: int| 0 <= r < rows.len() implies (#[trigger] rows[r])[col].len()
            <= content_width(header, rows, col) by {
            if r < rows.len() - 1 {
                assert(rows.drop_last()[r] == rows[r]);
            }
        }
    }
}

/// The content width of a column is the length of one of its cells.
pub proof fn lemma_content_width_attained(
    header: Seq<Seq<char>>,
    rows: Seq<Seq<Seq<char>>>,
    col: int,
)
    ensures
        content_width(header, rows, col) == header[col].len() || exists|r: int|
            0 <= r < rows.len() && (#[trigger] rows[r])[col].len() == content_width(
                header,
                rows,
                col,
            ),
    decreases rows.len(),
{
    if rows.len() > 0 {
        let above = content_width(header, rows.drop_last(), col);
        let last = rows.len() - 1;
        if rows.last()[col].len() > above {
            assert(rows[last][col].len() == content_width(header, rows, col));
        } else {
            lemma_content_width_attained(header, rows.drop_last(), col);
            if above != header[col].len() {
                let r = choose|r: int|
                    0 <= r < rows.drop_last().len() && (#[trigger] rows.drop_last()[r])[col].len()
                        == above;
                assert(rows.drop_last()[r] == rows[r]);
                assert(rows[r][col].len() == content_width(header, rows, col));
            }
        }
    }
}

/// Cells that fit their columns fill them: the first `n` cells take as
/// many characters as the first `n` columns are wide.
pub proof fn lemma_line_prefix_len(cells: Seq<Seq<char>>, widths: Seq<nat>, n: nat)
    requires
        n <= cells.len(),
        n <= widths.len(),
        forall|c: int| 0 <= c < n ==> (#[trigger] cells[c]).len() <= widths[c],
    ensures
        line_prefix(cells, widths, n).len() == column_start(widths, n),
    decreases n,
{
    if n > 0 {
        lemma_line_prefix_len(cells, widths, (n - 1) as nat);
        assert(cells[n - 1].len() <= widths[n - 1]);
    }
}

/// Cells that fit their columns stand at their columns: between the start
/// of column `col` and the start of the next, the first `n` cells of a
/// line hold cell `col` and the blanks that fill it.
pub proof fn lemma_line_prefix_cell(cells: Seq<Seq<char>>, widths: Seq<nat>, n: nat, col: int)
    requires
        0 <= col < n <= cells.len(),
        n <= widths.len(),
        forall|c: int| 0 <= c < n ==> (#[trigger] cells[c]).len() <= widths[c],
    ensures
        column_start(widths, (col + 1) as nat) <= line_prefix(cells, widths, n).len(),
        line_prefix(cells, widths, n).subrange(
            column_start(widths, col as nat) as int,
            column_start(widths, (col + 1) as nat) as int,
        ) == pad_right(cells[col], widths[col]),
    decreases n,
{
    let before = line_prefix(cells, widths, (n - 1) as nat);
    let cell = pad_right(cells[n - 1], widths[n - 1]);
    lemma_line_prefix_len(cells, widths, (n - 1) as nat);
    lemma_line_prefix_len(cells, widths, n);
    assert(cells[n - 1].len() <= widths[n - 1]);
    if col == n - 1 {
        assert((before + cell).subrange(before.len() as int, (before + cell).len() as int)
            =~= cell);
    } else {
        lemma_line_prefix_cell(cells, widths, (n - 1) as nat, col);
        let from = column_start(widths, col as nat) as int;
        let to = column_start(widths, (col + 1) as nat) as int;
        assert((before + cell).subrange(from, to) =~= before.subrange(from, to));
    }
}

/// A line holds no character but those of its cells and blanks.
pub proof fn lemma_line_free_of(cells: Seq<Seq<char>>, widths: Seq<nat>, n: nat, c: char)
    requires
        n <= cells.len(),
        c != ' ',
        forall|k: int| 0 <= k < n ==> free_of(#[trigger] cells[k], c),
    ensures
        free_of(line_prefix(cells, widths, n), c),
    decreases n,
{
    if n > 0 {
        lemma_line_free_of(cells, widths, (n - 1) as nat, c);
        assert(free_of(cells[n - 1], c));
        lemma_padded_free_of(cells[n - 1], widths[n - 1], c);
    }
}

/// In every line of a table every column has the same place and the same
/// width: the length of the longest cell of that column, the header's
/// counted, plus the gutter. The line holds there the cell of that column,
/// flush left, and blanks behind it.
pub proof fn lemma_columns_aligned(
    header: Seq<Seq<char>>,
    rows: Seq<Seq<Seq<char>>>,
    i: int,
    col: int,
)
    requires
        rectangular(header, rows),
        0 <= i <= rows.len(),
        0 <= col < header.len(),
    ensures
        ({
            let widths = column_widths(header, rows);
            let line = table_lines(header, rows)[i];
            let cell = line_cells(header, rows, i)[col];
            let from = column_start(widths, col as nat);
            let to = column_start(widths, (col + 1) as nat);
            &&& widths[col] == column_width(header, rows, col)
            &&& to == from + widths[col]
            &&& to <= line.len()
            &&& line.subrange(from as int, to as int) == cell + spaces(
                (widths[col] - cell.len()) as nat,
            )
            &&& cell.len() + GUTTER <= widths[col]
            &&& line.len() == column_start(widths, header.len())
        }),
{
    let widths = column_widths(header, rows);
    let cells = line_cells(header, rows, i);
    if i > 0 {
        assert(rows[i - 1].len() == header.len());
    }
    assert forall|c: int| 0 <= c < cells.len() implies (#[trigger] cells[c]).len() <= widths[c] by {
        lemma_content_width_bounds(header, rows, c);
        if i > 0 {
            assert(rows[i - 1][c].len() <= content_width(header, rows, c));
        }
    }
    lemma_content_width_bounds(header, rows, col);
    if i > 0 {
        assert(rows[i - 1][col].len() <= content_width(header, rows, col));
    }
    lemma_line_prefix_cell(cells, widths, cells.len(), col);
    lemma_line_prefix_len(cells, widths, cells.len());
}

/// The longest cell of each column, the header's counted.
fn content_widths(header: &Vec<String>, rows: &Vec<Vec<String>>) -> (widths: Vec<usize>)
    requires
        rectangular(views(header@), grid(rows@)),
    ensures
        widths@.len() == header@.len(),
        forall|c: int|
            0 <= c < header@.len() ==> (#[trigger] widths@[c]) as nat == content_width(
                views(header@),
                grid(rows@),
                c,
            ),
{
    let ghost head = views(header@);
    let ghost body = grid(rows@);
    let mut widths: Vec<usize> = Vec::new();
    let mut c: usize = 0;
    while c < header.len()
        invariant
            c <= header@.len(),
            head == views(header@),
            body == grid(rows@),
            rectangular(head, body),
            widths@.len() == c,
            forall|k: int|
                0 <= k < c ==> (#[trigger] widths@[k]) as nat == content_width(head, body, k),
        decreases header@.len() - c,
    {
        let mut longest: usize = header[c].as_str().unicode_len();
        let mut r: usize = 0;
        assert(body.take(0).len() == 0);
        while r < rows.len()
            invariant
                r <= rows@.len(),
                c < header@.len(),
                head == views(header@),
                body == grid(rows@),
                rectangular(head, body),
                longest as nat == content_width(head, body.take(r as int), c as int),
            decreases rows@.len() - r,
        {
            assert(body[r as int].len() == head.len());
            let here = rows[r][c].as_str().unicode_len();
            proof {
                let upto = body.take(r as int + 1);
                assert(upto.drop_last() =~= body.take(r as int));
                assert(upto.last() == body[r as int]);
                assert(body[r as int][c as int] == rows@[r as int]@[c as int]@);
            }
            if here > longest {
                longest = here;
            }
            r += 1;
        }
        assert(body.take(r as int) =~= body);
        widths.push(longest);
        c += 1;
    }
    widths
}

/// The widths of columns whose longest cells have the lengths `longest`.
spec fn with_gutter(longest: Seq<usize>) -> Seq<nat> {
    Seq::new(longest.len(), |c: int| (longest[c] + GUTTER) as nat)
}

/// One line: each cell, blanks up to the longest cell of its column, and
/// the gutter.
fn render_row(cells: &Vec<String>, longest: &Vec<usize>) -> (out: String)
    requires
        longest@.len() == cells@.len(),
        forall|c: int| 0 <= c < cells@.len() ==> cells@[c]@.len() <= #[trigger] longest@[c],
    ensures
        out@ == row_line(views(cells@), with_gutter(longest@)),
{
    let ghost widths = with_gutter(longest@);
    let mut out = String::new();
    let mut c: usize = 0;
    assert(out@ =~= line_prefix(views(cells@), widths, 0));
    while c < cells.len()
        invariant
            c <= cells@.len(),
            longest@.len() == cells@.len(),
            widths == with_gutter(longest@),
            forall|k: int| 0 <= k < cells@.len() ==> cells@[k]@.len() <= #[trigger] longest@[k],
            out@ == line_prefix(views(cells@), widths, c as nat),
        decreases cells@.len() - c,
    {
        let ghost before = out@;
        let width = longest[c];
        push_padded(&mut out, cells[c].as_str(), width);
        push_spaces(&mut out, GUTTER);
        proof {
            let cell = cells@[c as int]@;
            assert(views(cells@)[c as int] == cell);
            assert(pad_right(cell, width as nat) + spaces(GUTTER as nat) =~= pad_right(
                cell,
                widths[c as int],
            ));
            assert(out@ =~= before + pad_right(cell, widths[c as int]));
        }
        c += 1;
    }
    out
}

/// Renders a table: the header's line, then one line for each row, every
/// cell flush left and filled to the width of its column.
pub fn render_table(header: &Vec<String>, rows: &Vec<Vec<String>>) -> (lines: Vec<String>)
    requires
        rectangular(views(header@), grid(rows@)),
    ensures
        views(lines@) == table_lines(views(header@), grid(rows@)),
{
    let ghost head = views(header@);
    let ghost body = grid(rows@);
    let longest = content_widths(header, rows);
    proof {
        assert(with_gutter(longest@) =~= column_widths(head, body));
        assert forall|c: int| 0 <= c < header@.len() implies header@[c]@.len()
            <= #[trigger] longest@[c] by {
            lemma_content_width_bounds(head, body, c);
            assert(head[c] == header@[c]@);
        }
    }
    let mut lines: Vec<String> = Vec::new();
    lines.push(render_row(header, &longest));
    let mut r: usize = 0;
    while r < rows.len()
        invariant
            r <= rows@.len(),
            head == views(header@),
            body == grid(rows@),
            rectangular(head, body),
            longest@.len() == header@.len(),
            with_gutter(longest@) == column_widths(head, body),
            forall|c: int|
                0 <= c < header@.len() ==> (#[trigger] longest@[c]) as nat == content_width(
                    head,
                    body,
                    c,
                ),
            lines@.len() == r + 1,
            forall|i: int|
                0 <= i <= r ==> (#[trigger] lines@[i])@ == table_lines(head, body)[i],
        decreases rows@.len() - r,
    {
        let row = &rows[r];
        proof {
            assert(body[r as int].len() == head.len());
            assert(body[r as int] == views(row@));
            assert forall|c: int| 0 <= c < row@.len() implies row@[c]@.len()
                <= #[trigger] longest@[c] by {
                lemma_content_width_bounds(head, body, c);
                assert(body[r as int][c] == row@[c]@);
            }
        }
        lines.push(render_row(row, &longest));
        r += 1;
    }
    assert(views(lines@) =~= table_lines(head, body));
    lines
}

} // verus!

//! The editable text buffer of `tui_textarea`, seen through its lines and
//! its cursor.

use vstd::prelude::*;
use tui_textarea::TextArea;

verus! {

/// A `tui_textarea` text area, held whole; what the library knows of it is
/// given by `area_lines` and `area_cursor`.
#[verifier::external_body]
pub struct TextBuffer {
    area: TextArea<'static>,
}

/// The lines a text area holds, each as its characters.
pub uninterp spec fn area_lines(t: TextBuffer) -> Seq<Seq<char>>;

/// The cursor of a text area: row, then column counted in characters.
pub uninterp spec fn area_cursor(t: TextBuffer) -> (nat, nat);

/// Lines and cursor that an edit can act on: at least one line, the cursor
/// on an existing line and at most at its end.
pub open spec fn buffer_wf(lines: Seq<Seq<char>>, cursor: (nat, nat)) -> bool {
    &&& lines.len() > 0
    &&& cursor.0 < lines.len()
    &&& cursor.1 <= lines[cursor.0 as int].len()
}

/// `line` with `c` put before its character at position `col`.
pub open spec fn insert_in_line(line: Seq<char>, col: nat, c: char) -> Seq<char> {
    line.take(col as int) + seq![c] + line.skip(col as int)
}

/// Lines after typing `c` at the cursor.
pub open spec fn lines_after_insert(lines: Seq<Seq<char>>, cursor: (nat, nat), c: char) -> Seq<
    Seq<char>,
> {
    lines.update(cursor.0 as int, insert_in_line(lines[cursor.0 as int], cursor.1, c))
}

/// Lines after splitting the cursor line at the cursor.
pub open spec fn lines_after_break(lines: Seq<Seq<char>>, cursor: (nat, nat)) -> Seq<Seq<char>> {
    let row = cursor.0 as int;
    let line = lines[row];
    lines.take(row) + seq![line.take(cursor.1 as int), line.skip(cursor.1 as int)] + lines.skip(
        row + 1,
    )
}

/// Lines after deleting what stands before the cursor: the character before
/// it, or at the start of a line the line break that ends the line above.
pub open spec fn lines_after_delete(lines: Seq<Seq<char>>, cursor: (nat, nat)) -> Seq<Seq<char>> {
    let row = cursor.0 as int;
    let col = cursor.1 as int;
    if col > 0 {
        lines.update(row, lines[row].remove(col - 1))
    } else if row > 0 {
        lines.take(row - 1) + seq![lines[row - 1] + lines[row]] + lines.skip(row + 1)
    } else {
        lines
    }
}

/// Cursor after deleting what stands before it.
pub open spec fn cursor_after_delete(lines: Seq<Seq<char>>, cursor: (nat, nat)) -> (nat, nat) {
    if cursor.1 > 0 {
        (cursor.0, (cursor.1 - 1) as nat)
    } else if cursor.0 > 0 {
        ((cursor.0 - 1) as nat, lines[cursor.0 - 1].len())
    } else {
        cursor
    }
}

/// Relies on `TextArea::default`: one empty line, cursor at its start.
#[verifier::external_body]
pub(crate) fn area_new() -> (r: TextBuffer)
    ensures
        area_lines(r) == seq![Seq::<char>::empty()],
        area_cursor(r) == (0nat, 0nat),
{
    TextBuffer { area: TextArea::default() }
}

/// Relies on `TextArea::insert_char`: the character goes in at the cursor,
/// which moves one column right.
#[verifier::external_body]
pub(crate) fn area_insert_char(t: &mut TextBuffer, c: char)
    requires
        buffer_wf(area_lines(*old(t)), area_cursor(*old(t))),
    ensures
        area_lines(*final(t)) == lines_after_insert(area_lines(*old(t)), area_cursor(*old(t)), c),
        area_cursor(*final(t)) == (area_cursor(*old(t)).0, area_cursor(*old(t)).1 + 1),
{
    t.area.insert_char(c)
}

/// Relies on `TextArea::insert_newline`: the cursor line is split at the
/// cursor, which moves to the start of the new line.
#[verifier::external_body]
pub(crate) fn area_insert_newline(t: &mut TextBuffer)
    requires
        buffer_wf(area_lines(*old(t)), area_cursor(*old(t))),
    ensures
        area_lines(*final(t)) == lines_after_break(area_lines(*old(t)), area_cursor(*old(t))),
        area_cursor(*final(t)) == (area_cursor(*old(t)).0 + 1, 0nat),
{
    t.area.insert_newline()
}

/// Relies on `TextArea::delete_char` (and `delete_newline`, which it calls
/// at the start of a line): removes what stands before the cursor, and
/// reports whether anything was removed.
#[verifier::external_body]
pub(crate) fn area_delete_char(t: &mut TextBuffer) -> (r: bool)
    requires
        buffer_wf(area_lines(*old(t)), area_cursor(*old(t))),
    ensures
        area_lines(*final(t)) == lines_after_delete(area_lines(*old(t)), area_cursor(*old(t))),
        area_cursor(*final(t)) == cursor_after_delete(area_lines(*old(t)), area_cursor(*old(t))),
        r == (area_cursor(*old(t)).0 > 0 || area_cursor(*old(t)).1 > 0),
{
    t.area.delete_char()
}

/// Relies on `TextArea::lines`: a copy of the lines it holds.
#[verifier::external_body]
pub(crate) fn area_lines_vec(t: &TextBuffer) -> (r: Vec<String>)
    ensures
        r@.len() == area_lines(*t).len(),
        forall|i: int| 0 <= i < r@.len() ==> #[trigger] r@[i]@ == area_lines(*t)[i],
{
    t.area.lines().to_vec()
}

/// Relies on `TextArea::cursor`: the cursor as row and column.
#[verifier::external_body]
pub(crate) fn area_cursor_pos(t: &TextBuffer) -> (r: (usize, usize))
    ensures
        r.0 as nat == area_cursor(*t).0,
        r.1 as nat == area_cursor(*t).1,
{
    t.area.cursor()
}

} // verus!

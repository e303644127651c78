//! A titled, line-structured text field.

use vstd::prelude::*;
use vstd::string::StringExecFns;
use crate::textarea::{
    area_cursor, area_cursor_pos, area_delete_char, area_insert_char, area_insert_newline,
    area_lines, area_lines_vec, area_new, buffer_wf, cursor_after_delete, lines_after_break,
    lines_after_delete, lines_after_insert, TextBuffer,
};
use crate::validate::{parses_as_json, uri_valid, validate_json, validate_uri};

verus! {

/// The lines joined into one text, with a line break between neighbours.
pub open spec fn join_lines(lines: Seq<Seq<char>>) -> Seq<char>
    decreases lines.len(),
{
    if lines.len() == 0 {
        Seq::empty()
    } else if lines.len() == 1 {
        lines[0]
    } else {
        join_lines(lines.drop_last()) + seq!['\n'] + lines.last()
    }
}

/// An edit that a key can make to a text field.
#[derive(Clone, Copy, Debug, PartialEq, Eq, Structural)]
pub enum Edit {
    Insert(char),
    DeleteBefore,
    LineBreak,
}

/// Lines after an edit.
pub open spec fn lines_after_edit(lines: Seq<Seq<char>>, cursor: (nat, nat), e: Edit) -> Seq<
    Seq<char>,
> {
    match e {
        Edit::Insert(c) => lines_after_insert(lines, cursor, c),
        Edit::DeleteBefore => lines_after_delete(lines, cursor),
        Edit::LineBreak => lines_after_break(lines, cursor),
    }
}

/// Cursor after an edit.
pub open spec fn cursor_after_edit(lines: Seq<Seq<char>>, cursor: (nat, nat), e: Edit) -> (
    nat,
    nat,
) {
    match e {
        Edit::Insert(_) => (cursor.0, cursor.1 + 1),
        Edit::DeleteBefore => cursor_after_delete(lines, cursor),
        Edit::LineBreak => (cursor.0 + 1, 0nat),
    }
}

/// A text field: a title and an editable buffer of lines with a cursor.
pub struct Editor {
    pub title: String,
    pub text_area: TextBuffer,
}

impl Editor {
    /// The lines the field holds.
    pub open spec fn lines_view(&self) -> Seq<Seq<char>> {
        area_lines(self.text_area)
    }

    /// The cursor: row, then column in characters.
    pub open spec fn cursor_view(&self) -> (nat, nat) {
        area_cursor(self.text_area)
    }

    /// The whole content as one text.
    pub open spec fn text_view(&self) -> Seq<char> {
        join_lines(self.lines_view())
    }

    pub open spec fn wf(&self) -> bool {
        buffer_wf(self.lines_view(), self.cursor_view())
    }

    /// `self` is `old` after the edit `e`, with the same title.
    pub open spec fn edited_from(&self, old: Editor, e: Edit) -> bool {
        &&& self.title@ == old.title@
        &&& self.lines_view() == lines_after_edit(old.lines_view(), old.cursor_view(), e)
        &&& self.cursor_view() == cursor_after_edit(old.lines_view(), old.cursor_view(), e)
    }

    /// An empty field with the given title.
    pub fn default(title: &str) -> (r: Self)
        ensures
            r.title@ == title@,
            r.lines_view() == seq![Seq::<char>::empty()],
            r.cursor_view() == (0nat, 0nat),
            r.wf(),
    {
        Editor { title: title.to_owned(), text_area: area_new() }
    }

    /// Inserts `c` at the cursor and moves the cursor past it.
    pub fn insert_char(&mut self, c: char)
        requires
            old(self).wf(),
        ensures
            final(self).wf(),
            final(self).edited_from(*old(self), Edit::Insert(c)),
    {
        area_insert_char(&mut self.text_area, c);
    }

    /// Removes the character before the cursor, or the line break before the
    /// cursor line when the cursor is at its start; nothing at the start of
    /// the field.
    pub fn delete_before_cursor(&mut self)
        requires
            old(self).wf(),
        ensures
            final(self).wf(),
            final(self).edited_from(*old(self), Edit::DeleteBefore),
    {
        let _ = area_delete_char(&mut self.text_area);
        proof {
            let lines = old(self).lines_view();
            let (row, col) = old(self).cursor_view();
            if col == 0 && row > 0 {
                let l = self.lines_view();
                assert(l[row - 1] == lines[row - 1] + lines[row as int]);
            }
        }
    }

    /// Splits the cursor line at the cursor; the cursor goes to the start of
    /// the new line.
    pub fn insert_line_break(&mut self)
        requires
            old(self).wf(),
        ensures
            final(self).wf(),
            final(self).edited_from(*old(self), Edit::LineBreak),
    {
        area_insert_newline(&mut self.text_area);
        proof {
            let (row, col) = old(self).cursor_view();
            let l = self.lines_view();
            assert(l[row + 1int] == old(self).lines_view()[row as int].skip(col as int));
        }
    }

    /// Applies one edit.
    pub fn apply(&mut self, e: Edit)
        requires
            old(self).wf(),
        ensures
            final(self).wf(),
            final(self).edited_from(*old(self), e),
    {
        match e {
            Edit::Insert(c) => self.insert_char(c),
            Edit::DeleteBefore => self.delete_before_cursor(),
            Edit::LineBreak => self.insert_line_break(),
        }
    }

    /// The lines the field holds.
    pub fn lines(&self) -> (r: Vec<String>)
        ensures
            r@.len() == self.lines_view().len(),
            forall|i: int| 0 <= i < r@.len() ==> #[trigger] r@[i]@ == self.lines_view()[i],
    {
        area_lines_vec(&self.text_area)
    }

    /// The cursor as row and column.
    pub fn cursor(&self) -> (r: (usize, usize))
        ensures
            r.0 as nat == self.cursor_view().0,
            r.1 as nat == self.cursor_view().1,
    {
        area_cursor_pos(&self.text_area)
    }

    /// The content as one text, lines joined by line breaks.
    pub fn text(&self) -> (r: String)
        ensures
            r@ == self.text_view(),
    {
        let v = area_lines_vec(&self.text_area);
        let ghost lines = self.lines_view();
        let mut s = String::new();
        let mut i: usize = 0;
        while i < v.len()
            invariant
                i <= v@.len(),
                v@.len() == lines.len(),
                forall|j: int| 0 <= j < v@.len() ==> #[trigger] v@[j]@ == lines[j],
                s@ == join_lines(lines.take(i as int)),
            decreases v.len() - i,
        {
            let ghost prev = s@;
            if i > 0 {
                proof {
                    reveal_strlit("\n");
                }
                s.append("\n");
            }
            s.append(v[i].as_str());
            proof {
                let t = lines.take(i + 1);
                assert(t.drop_last() =~= lines.take(i as int));
                assert(t.last() == lines[i as int]);
                if i == 0 {
                    assert(s@ =~= t[0]);
                } else {
                    assert(s@ =~= prev + seq!['\n'] + lines[i as int]);
                }
            }
            i = i + 1;
        }
        proof {
            assert(lines.take(i as int) =~= lines);
        }
        s
    }

    /// Whether the content is a syntactically acceptable URI.
    pub fn validate_uri(&self) -> (r: bool)
        ensures
            r == uri_valid(self.text_view()),
    {
        let t = self.text();
        validate_uri(t.as_str())
    }

    /// Whether the content parses as one JSON value.
    pub fn validate_json(&self) -> (r: bool)
        ensures
            r == parses_as_json(self.text_view()),
    {
        let t = self.text();
        validate_json(t.as_str())
    }
}

} // verus!

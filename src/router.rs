//! Key input: which key does what in which mode, and the composer that the
//! keys act on.

use vstd::prelude::*;
use crate::editor::{Edit, Editor};
use crate::modes::{lemma_mode_steps, mode_after, mode_before, InputMode, Tab};
use crate::request::Request;
use crate::state::{tab_after, tab_before, State};

verus! {

/// A key as the terminal reports it.
#[derive(Clone, Copy, Debug, PartialEq, Eq, Structural)]
pub enum KeyCode {
    Char(char),
    Backspace,
    Enter,
    Left,
    Right,
    Up,
    Down,
    Other,
}

/// The modifier keys held with a key.
#[derive(Clone, Copy, Debug, PartialEq, Eq, Structural)]
pub enum Modifiers {
    Plain,
    Shift,
    Alt,
    Other,
}

/// Whether the key went down, came up, or repeats.
#[derive(Clone, Copy, Debug, PartialEq, Eq, Structural)]
pub enum KeyKind {
    Press,
    Release,
    Repeat,
}

/// One key event.
#[derive(Clone, Copy, Debug, PartialEq, Eq, Structural)]
pub struct KeyEvent {
    pub code: KeyCode,
    pub modifiers: Modifiers,
    pub kind: KeyKind,
}

/// What a key event does.
#[derive(Clone, Copy, Debug, PartialEq, Eq, Structural)]
pub enum Action {
    /// Edit the field that has the focus.
    Edit(Edit),
    NextTab,
    PreviousTab,
    /// Move the focus to the next mode.
    Advance,
    /// Move the focus to the previous mode.
    Retreat,
    Quit,
    Ignore,
}

/// The dispatch table: what `key` does while the focus is in `mode`.
pub open spec fn action_for(mode: InputMode, key: KeyEvent) -> Action {
    if key.kind != KeyKind::Press {
        Action::Ignore
    } else {
        match key.modifiers {
            Modifiers::Plain => match (mode, key.code) {
                (InputMode::UriEditing, KeyCode::Char(c)) => Action::Edit(Edit::Insert(c)),
                (InputMode::UriEditing, KeyCode::Backspace) => Action::Edit(Edit::DeleteBefore),
                (InputMode::PayloadEditing, KeyCode::Char(c)) => Action::Edit(Edit::Insert(c)),
                (InputMode::PayloadEditing, KeyCode::Backspace) => Action::Edit(
                    Edit::DeleteBefore,
                ),
                (InputMode::PayloadEditing, KeyCode::Enter) => Action::Edit(Edit::LineBreak),
                (InputMode::Normal, KeyCode::Right) => Action::NextTab,
                (InputMode::Normal, KeyCode::Left) => Action::PreviousTab,
                _ => Action::Ignore,
            },
            Modifiers::Shift => match key.code {
                KeyCode::Down => Action::Advance,
                KeyCode::Up => Action::Retreat,
                _ => Action::Ignore,
            },
            Modifiers::Alt => match key.code {
                KeyCode::Char('q') => Action::Quit,
                _ => Action::Ignore,
            },
            Modifiers::Other => Action::Ignore,
        }
    }
}

/// What `key` does while the focus is in `mode`.
pub fn route(mode: InputMode, key: KeyEvent) -> (r: Action)
    ensures
        r == action_for(mode, key),
{
    match key.kind {
        KeyKind::Press => {},
        _ => {
            return Action::Ignore;
        },
    }
    match key.modifiers {
        Modifiers::Plain => match mode {
            InputMode::UriEditing => match key.code {
                KeyCode::Char(c) => Action::Edit(Edit::Insert(c)),
                KeyCode::Backspace => Action::Edit(Edit::DeleteBefore),
                _ => Action::Ignore,
            },
            InputMode::PayloadEditing => match key.code {
                KeyCode::Char(c) => Action::Edit(Edit::Insert(c)),
                KeyCode::Backspace => Action::Edit(Edit::DeleteBefore),
                KeyCode::Enter => Action::Edit(Edit::LineBreak),
                _ => Action::Ignore,
            },
            InputMode::Normal => match key.code {
                KeyCode::Right => Action::NextTab,
                KeyCode::Left => Action::PreviousTab,
                _ => Action::Ignore,
            },
        },
        Modifiers::Shift => match key.code {
            KeyCode::Down => Action::Advance,
            KeyCode::Up => Action::Retreat,
            _ => Action::Ignore,
        },
        Modifiers::Alt => match key.code {
            KeyCode::Char(c) => {
                if c == 'q' {
                    Action::Quit
                } else {
                    Action::Ignore
                }
            },
            _ => Action::Ignore,
        },
        Modifiers::Other => Action::Ignore,
    }
}

/// The URI field, one field per payload tab, and the state that picks
/// which of them has the focus.
pub struct Composer<'a> {
    pub uri_editor: Editor,
    pub payload_editors: Vec<Editor>,
    pub state: State<'a>,
}

/// Whether `new` is `old` after `action` has been applied.
pub open spec fn step(old: Composer, new: Composer, action: Action) -> bool {
    let mode = old.state.input_mode;
    let tab = old.state.req_tab_index as int;
    let count = old.state.payload_titles@.len();
    &&& new.state.payload_titles@ == old.state.payload_titles@
    &&& new.state.main_index == old.state.main_index
    &&& new.state.input_mode == match action {
        Action::Advance => mode_after(mode),
        Action::Retreat => mode_before(mode),
        _ => mode,
    }
    &&& new.state.req_tab_index as nat == match action {
        Action::NextTab => tab_after(tab as nat, count),
        Action::PreviousTab => tab_before(tab as nat, count),
        _ => tab as nat,
    }
    &&& match action {
        Action::Edit(e) if mode == InputMode::UriEditing => new.uri_editor.edited_from(
            old.uri_editor,
            e,
        ),
        _ => new.uri_editor == old.uri_editor,
    }
    &&& new.payload_editors@.len() == old.payload_editors@.len()
    &&& forall|j: int|
        0 <= j < old.payload_editors@.len() ==> match action {
            Action::Edit(e) if mode == InputMode::PayloadEditing && j == tab => (
            #[trigger] new.payload_editors@[j]).edited_from(old.payload_editors@[j], e),
            _ => new.payload_editors@[j] == old.payload_editors@[j],
        }
}

/// In normal mode no key changes the content or cursor of any field.
pub proof fn lemma_normal_mode_keeps_fields(old: Composer, new: Composer, key: KeyEvent)
    requires
        old.state.input_mode == InputMode::Normal,
        step(old, new, action_for(InputMode::Normal, key)),
    ensures
        new.uri_editor == old.uri_editor,
        new.payload_editors@ == old.payload_editors@,
{
    assert(new.payload_editors@ =~= old.payload_editors@);
}

/// Moving the focus one mode away and back again, in either direction,
/// returns to the same mode and leaves every field, with its cursor, and the
/// active tab as they were.
pub proof fn lemma_focus_round_trip(
    c0: Composer,
    c1: Composer,
    c2: Composer,
    first: Action,
    second: Action,
)
    requires
        (first == Action::Advance && second == Action::Retreat) || (first == Action::Retreat
            && second == Action::Advance),
        step(c0, c1, first),
        step(c1, c2, second),
    ensures
        c2.state.input_mode == c0.state.input_mode,
        c2.state.req_tab_index == c0.state.req_tab_index,
        c2.uri_editor == c0.uri_editor,
        c2.payload_editors@ == c0.payload_editors@,
{
    crate::modes::lemma_focus_cycle(c0.state.input_mode);
    assert(c2.payload_editors@ =~= c0.payload_editors@);
}

impl<'a> Composer<'a> {
    pub open spec fn wf(&self) -> bool {
        &&& self.state.wf()
        &&& self.payload_editors@.len() == self.state.payload_titles@.len()
        &&& self.uri_editor.wf()
        &&& forall|j: int|
            0 <= j < self.payload_editors@.len() ==> (#[trigger] self.payload_editors@[j]).wf()
    }

    /// Empty fields `uri`, `headers` and `body`, at the start state.
    pub fn new() -> (r: Composer<'static>)
        ensures
            r.wf(),
            r.state.input_mode == InputMode::UriEditing,
            r.state.req_tab_index == 0,
            r.payload_editors@.len() == 2,
            r.uri_editor.title@ == "uri"@,
            r.payload_editors@[0].title@ == "headers"@,
            r.payload_editors@[1].title@ == "body"@,
            r.uri_editor.text_view().len() == 0,
            r.payload_editors@[0].text_view().len() == 0,
            r.payload_editors@[1].text_view().len() == 0,
    {
        let uri_editor = Editor::default("uri");
        let headers = Editor::default("headers");
        let body = Editor::default("body");
        let payload_editors = vec![headers, body];
        let state = State::new();
        proof {
            reveal_strlit("uri");
            reveal_strlit("headers");
            reveal_strlit("body");
        }
        Composer { uri_editor, payload_editors, state }
    }

    /// The payload field of the active tab.
    pub fn active_payload(&self) -> (r: &Editor)
        requires
            self.wf(),
        ensures
            *r == self.payload_editors@[self.state.req_tab_index as int],
    {
        &self.payload_editors[self.state.req_tab_index]
    }

    /// Applies `e` to the payload field of the active tab.
    fn edit_active_payload(&mut self, e: Edit)
        requires
            old(self).wf(),
            old(self).state.input_mode == InputMode::PayloadEditing,
        ensures
            final(self).wf(),
            step(*old(self), *final(self), Action::Edit(e)),
    {
        let i = self.state.req_tab_index;
        let mut field = self.payload_editors.remove(i);
        field.apply(e);
        self.payload_editors.insert(i, field);
        proof {
            let olds = old(self).payload_editors@;
            let news = self.payload_editors@;
            assert forall|j: int| 0 <= j < olds.len() implies (#[trigger] news[j]).wf() && (if j
                == i as int {
                news[j].edited_from(olds[j], e)
            } else {
                news[j] == olds[j]
            }) by {
                if j < i as int {
                    assert(news[j] == olds[j]);
                } else if j > i as int {
                    assert(news[j] == olds[j]);
                }
            }
        }
    }

    /// Handles one key event and says what it did; `Action::Quit` asks the
    /// caller to stop.
    pub fn handle_key(&mut self, key: KeyEvent) -> (r: Action)
        requires
            old(self).wf(),
        ensures
            final(self).wf(),
            r == action_for(old(self).state.input_mode, key),
            step(*old(self), *final(self), r),
    {
        let action = route(self.state.input_mode, key);
        match action {
            Action::Edit(e) => {
                match self.state.input_mode {
                    InputMode::UriEditing => self.uri_editor.apply(e),
                    InputMode::PayloadEditing => self.edit_active_payload(e),
                    InputMode::Normal => {},
                }
            },
            Action::NextTab => self.state.next_payload(),
            Action::PreviousTab => self.state.previous_payload(),
            Action::Advance => {
                let m = self.state.input_mode;
                let n = m.next();
                let p = m.previous();
                proof {
                    lemma_mode_steps(m, n, p);
                }
                self.state.input_mode = n;
            },
            Action::Retreat => {
                let m = self.state.input_mode;
                let n = m.next();
                let p = m.previous();
                proof {
                    lemma_mode_steps(m, n, p);
                }
                self.state.input_mode = p;
            },
            Action::Quit => {},
            Action::Ignore => {},
        }
        action
    }

    /// The request made of the URI field and the first two payload fields,
    /// headers and body.
    pub fn request(&self) -> (r: Request)
        requires
            self.payload_editors@.len() >= 2,
        ensures
            r.uri@ == self.uri_editor.text_view(),
            crate::request::opt_view(r.headers) == crate::request::optional_text(
                self.payload_editors@[0].text_view(),
            ),
            crate::request::opt_view(r.body) == crate::request::optional_text(
                self.payload_editors@[1].text_view(),
            ),
            r.method@ == crate::request::method_for(self.payload_editors@[1].text_view().len() > 0),
    {
        Request::assemble(&self.uri_editor, &self.payload_editors[0], &self.payload_editors[1])
    }
}

} // verus!

use reqcomposer::editor::Edit;
use reqcomposer::modes::InputMode;
use reqcomposer::router::{route, Action, Composer, KeyCode, KeyEvent, KeyKind, Modifiers};

fn press(code: KeyCode) -> KeyEvent {
    KeyEvent { code, modifiers: Modifiers::Plain, kind: KeyKind::Press }
}

fn shift(code: KeyCode) -> KeyEvent {
    KeyEvent { code, modifiers: Modifiers::Shift, kind: KeyKind::Press }
}

#[test]
fn routing_table() {
    assert_eq!(route(InputMode::UriEditing, press(KeyCode::Char('a'))), Action::Edit(Edit::Insert('a')));
    assert_eq!(route(InputMode::UriEditing, press(KeyCode::Backspace)), Action::Edit(Edit::DeleteBefore));
    assert_eq!(route(InputMode::UriEditing, press(KeyCode::Enter)), Action::Ignore);
    assert_eq!(route(InputMode::PayloadEditing, press(KeyCode::Enter)), Action::Edit(Edit::LineBreak));
    assert_eq!(route(InputMode::Normal, press(KeyCode::Char('a'))), Action::Ignore);
    assert_eq!(route(InputMode::Normal, press(KeyCode::Right)), Action::NextTab);
    assert_eq!(route(InputMode::Normal, press(KeyCode::Left)), Action::PreviousTab);
    assert_eq!(route(InputMode::PayloadEditing, press(KeyCode::Left)), Action::Ignore);
    assert_eq!(route(InputMode::Normal, shift(KeyCode::Down)), Action::Advance);
    assert_eq!(route(InputMode::UriEditing, shift(KeyCode::Up)), Action::Retreat);
    assert_eq!(route(InputMode::UriEditing, shift(KeyCode::Char('A'))), Action::Ignore);
    let alt_q = KeyEvent { code: KeyCode::Char('q'), modifiers: Modifiers::Alt, kind: KeyKind::Press };
    assert_eq!(route(InputMode::PayloadEditing, alt_q), Action::Quit);
    let alt_w = KeyEvent { code: KeyCode::Char('w'), modifiers: Modifiers::Alt, kind: KeyKind::Press };
    assert_eq!(route(InputMode::Normal, alt_w), Action::Ignore);
    let released = KeyEvent { code: KeyCode::Char('a'), modifiers: Modifiers::Plain, kind: KeyKind::Release };
    assert_eq!(route(InputMode::UriEditing, released), Action::Ignore);
}

#[test]
fn normal_mode_keys_change_no_field() {
    let mut c = Composer::new();
    for ch in "abc".chars() {
        c.handle_key(press(KeyCode::Char(ch)));
    }
    c.handle_key(shift(KeyCode::Down));
    assert_eq!(c.state.input_mode, InputMode::Normal);
    c.handle_key(press(KeyCode::Char('z')));
    c.handle_key(press(KeyCode::Backspace));
    c.handle_key(press(KeyCode::Enter));
    assert_eq!(c.uri_editor.text(), "abc");
    assert_eq!(c.uri_editor.cursor(), (0, 3));
    assert_eq!(c.payload_editors[0].text(), "");
    assert_eq!(c.payload_editors[1].text(), "");
}

#[test]
fn focus_away_and_back_keeps_field() {
    let mut c = Composer::new();
    for ch in "ab".chars() {
        c.handle_key(press(KeyCode::Char(ch)));
    }
    c.handle_key(shift(KeyCode::Down));
    c.handle_key(shift(KeyCode::Up));
    assert_eq!(c.state.input_mode, InputMode::UriEditing);
    assert_eq!(c.uri_editor.text(), "ab");
    assert_eq!(c.uri_editor.cursor(), (0, 2));
    c.handle_key(shift(KeyCode::Up));
    assert_eq!(c.state.input_mode, InputMode::PayloadEditing);
    c.handle_key(shift(KeyCode::Down));
    c.handle_key(press(KeyCode::Char('c')));
    assert_eq!(c.uri_editor.text(), "abc");
}

#[test]
fn end_to_end_scenario() {
    let mut c = Composer::new();
    assert_eq!(c.state.input_mode, InputMode::UriEditing);
    for ch in ['h', 't', 't', 'p', ':', '/', '/', 'a'] {
        c.handle_key(press(KeyCode::Char(ch)));
    }
    assert_eq!(c.uri_editor.text(), "http://a");
    assert!(c.uri_editor.validate_uri());
    c.handle_key(shift(KeyCode::Down));
    c.handle_key(shift(KeyCode::Down));
    assert_eq!(c.state.input_mode, InputMode::PayloadEditing);
    assert_eq!(c.state.req_tab_index, 0);
    c.handle_key(press(KeyCode::Char('{')));
    c.handle_key(press(KeyCode::Char('}')));
    assert_eq!(c.active_payload().text(), "{}");
    assert!(c.active_payload().validate_json());
    c.handle_key(press(KeyCode::Left));
    c.handle_key(press(KeyCode::Right));
    assert_eq!(c.state.req_tab_index, 0);
    assert_eq!(c.active_payload().text(), "{}");
}

#[test]
fn tabs_switch_in_normal_mode_and_edits_go_to_active_tab() {
    let mut c = Composer::new();
    c.handle_key(shift(KeyCode::Down));
    assert_eq!(c.handle_key(press(KeyCode::Right)), Action::NextTab);
    assert_eq!(c.state.req_tab_index, 1);
    c.handle_key(shift(KeyCode::Down));
    c.handle_key(press(KeyCode::Char('x')));
    c.handle_key(press(KeyCode::Enter));
    c.handle_key(press(KeyCode::Char('y')));
    assert_eq!(c.payload_editors[1].text(), "x\ny");
    assert_eq!(c.payload_editors[0].text(), "");
    let r = c.request();
    assert_eq!(r.method, "POST");
    assert_eq!(r.body, Some("x\ny".to_string()));
    assert_eq!(r.headers, None);
    assert_eq!(r.uri, "");
}

#[test]
fn alt_q_quits_without_change() {
    let mut c = Composer::new();
    let alt_q = KeyEvent { code: KeyCode::Char('q'), modifiers: Modifiers::Alt, kind: KeyKind::Press };
    assert_eq!(c.handle_key(alt_q), Action::Quit);
    assert_eq!(c.uri_editor.text(), "");
    assert_eq!(c.state.input_mode, InputMode::UriEditing);
}

use wayqa::request::Method;
use wayqa::tabs::RequestTab;
use wayqa::wayqa::{Action, InputMode, Key, Wayqa};

fn state_in(mode: InputMode) -> Wayqa {
    let mut w = Wayqa::new();
    w.change_mode(mode);
    w
}

fn type_text(w: &mut Wayqa, text: &str) {
    for c in text.chars() {
        assert_eq!(w.dispatch(Key::Char(c), 0), Action::NoOp);
    }
}

#[test]
fn new_session_starts_in_normal_mode() {
    let w = Wayqa::new();
    assert_eq!(w.input_mode, InputMode::Normal);
    assert_eq!(w.current_request_active_tab, RequestTab::Params);
    assert_eq!(w.current_request.method, Method::GET);
    assert_eq!(w.current_request.url, "");
    assert_eq!(w.url_cursor_position, 0);
    assert!(!w.request_running);
    assert!(w.current_request.response.is_none());
}

#[test]
fn unlisted_keys_change_nothing() {
    let pairs = [
        (InputMode::Normal, Key::Char('x')),
        (InputMode::Normal, Key::Esc),
        (InputMode::Normal, Key::Char('u')),
        (InputMode::Project, Key::Char('q')),
        (InputMode::Project, Key::Left),
        (InputMode::Request, Key::Char('q')),
        (InputMode::Request, Key::Char('7')),
        (InputMode::Request, Key::F(4)),
        (InputMode::Request, Key::Backspace),
        (InputMode::RequestUrl, Key::Enter),
        (InputMode::RequestUrl, Key::F(5)),
        (InputMode::RequestParamsTab, Key::Char('q')),
        (InputMode::RequestParamsTab, Key::Tab),
        (InputMode::RequestResponseTab, Key::Char('1')),
        (InputMode::RequestResponseTab, Key::Other),
    ];
    for (mode, key) in pairs {
        let mut w = state_in(mode);
        assert_eq!(w.dispatch(key, 5000), Action::NoOp);
        assert_eq!(w.input_mode, mode);
        assert_eq!(w.current_request_active_tab, RequestTab::Params);
        assert_eq!(w.current_request.url, "");
        assert_eq!(w.url_cursor_position, 0);
        assert_eq!(w.current_request.method, Method::GET);
        assert!(!w.project_layout_visible);
        assert!(!w.request_running);
    }
}

#[test]
fn quit_only_from_normal_mode() {
    let mut w = Wayqa::new();
    assert_eq!(w.dispatch(Key::Char('q'), 0), Action::Quit);
    assert_eq!(w.input_mode, InputMode::Normal);
    let mut w = state_in(InputMode::Request);
    assert_eq!(w.dispatch(Key::Char('q'), 0), Action::NoOp);
}

#[test]
fn project_mode_round_trip() {
    let mut w = Wayqa::new();
    w.dispatch(Key::Char('p'), 0);
    assert_eq!(w.input_mode, InputMode::Project);
    w.dispatch(Key::Esc, 0);
    assert_eq!(w.input_mode, InputMode::Normal);
    w.dispatch(Key::Char('p'), 0);
    w.dispatch(Key::Char('n'), 0);
    assert_eq!(w.input_mode, InputMode::Normal);
}

#[test]
fn response_pane_key_sets_mode_and_tab() {
    let mut w = state_in(InputMode::Request);
    assert_eq!(w.dispatch(Key::Char('6'), 0), Action::NoOp);
    assert_eq!(w.input_mode, InputMode::RequestResponseTab);
    assert_eq!(w.current_request_active_tab, RequestTab::Response);
    w.dispatch(Key::Esc, 0);
    assert_eq!(w.input_mode, InputMode::Request);
    assert_eq!(w.current_request_active_tab, RequestTab::Response);
}

#[test]
fn number_keys_select_request_panes() {
    let mut w = state_in(InputMode::Request);
    let panes = [
        ('2', RequestTab::Authorization),
        ('3', RequestTab::Headers),
        ('4', RequestTab::Body),
        ('5', RequestTab::Settings),
    ];
    for (c, tab) in panes {
        w.dispatch(Key::Char(c), 0);
        assert_eq!(w.input_mode, InputMode::Request);
        assert_eq!(w.current_request_active_tab, tab);
    }
    w.dispatch(Key::Char('1'), 0);
    assert_eq!(w.input_mode, InputMode::RequestParamsTab);
    assert_eq!(w.current_request_active_tab, RequestTab::Params);
}

#[test]
fn url_editing_scenario() {
    let mut w = Wayqa::new();
    w.dispatch(Key::Char('r'), 0);
    assert_eq!(w.input_mode, InputMode::Request);
    w.dispatch(Key::Char('u'), 0);
    assert_eq!(w.input_mode, InputMode::RequestUrl);
    type_text(&mut w, "http://x");
    assert_eq!(w.current_request.url, "http://x");
    assert_eq!(w.url_cursor_position, 8);
    for _ in 0..3 {
        w.dispatch(Key::Left, 0);
    }
    assert_eq!(w.url_cursor_position, 5);
    // Backspace removes the one character at position 4, the colon.
    w.dispatch(Key::Backspace, 0);
    assert_eq!(w.current_request.url, "http//x");
    assert_eq!(w.url_cursor_position, 4);
    w.dispatch(Key::Tab, 0);
    assert_eq!(w.input_mode, InputMode::Request);
}

#[test]
fn url_mode_takes_command_letters_as_text() {
    let mut w = state_in(InputMode::RequestUrl);
    type_text(&mut w, "qpm1");
    assert_eq!(w.current_request.url, "qpm1");
    assert_eq!(w.input_mode, InputMode::RequestUrl);
    assert_eq!(w.current_request.method, Method::GET);
}

#[test]
fn execute_while_running_starts_nothing() {
    let mut w = state_in(InputMode::Request);
    assert_eq!(w.dispatch(Key::F(5), 0), Action::Execute);
    assert!(w.request_running);
    assert_eq!(w.input_mode, InputMode::Request);
    assert_eq!(w.dispatch(Key::F(5), 10), Action::NoOp);
    assert!(w.request_running);
}

#[test]
fn method_key_is_debounced() {
    let mut w = state_in(InputMode::Request);
    w.dispatch(Key::Char('m'), 10_000);
    assert_eq!(w.current_request.method, Method::POST);
    w.dispatch(Key::Char('m'), 10_500);
    assert_eq!(w.current_request.method, Method::POST);
    w.dispatch(Key::Char('m'), 11_000);
    assert_eq!(w.current_request.method, Method::POST);
    w.dispatch(Key::Char('m'), 11_001);
    assert_eq!(w.current_request.method, Method::PUT);
}

#[test]
fn layout_key_is_debounced() {
    let mut w = Wayqa::new();
    w.dispatch(Key::Char('l'), 0);
    assert!(w.project_layout_visible);
    w.dispatch(Key::Char('l'), 999);
    assert!(w.project_layout_visible);
    w.dispatch(Key::Char('l'), 2_000);
    assert!(!w.project_layout_visible);
}

#[test]
fn toggle_project_layout_flips() {
    let mut w = Wayqa::new();
    w.toggle_project_layout();
    assert!(w.project_layout_visible);
    w.toggle_project_layout();
    assert!(!w.project_layout_visible);
}

#[test]
fn no_request_is_valid_yet() {
    let mut w = Wayqa::new();
    assert!(!w.check_valid_request());
}

#[test]
fn tick_changes_only_the_indicator() {
    let mut w = state_in(InputMode::Request);
    w.dispatch(Key::F(5), 0);
    assert_eq!(w.throbber_frame, 0);
    w.on_tick();
    assert_eq!(w.throbber_frame, 1);
    w.on_tick();
    assert_eq!(w.throbber_frame, 2);
    assert!(w.request_running);
    assert_eq!(w.input_mode, InputMode::Request);
}

#[test]
fn tick_wraps_to_first_frame() {
    let mut w = Wayqa::new();
    w.throbber_frame = i8::MAX;
    w.on_tick();
    assert_eq!(w.throbber_frame, 0);
}

#[test]
fn completion_allows_next_execution() {
    let mut w = state_in(InputMode::Request);
    assert_eq!(w.dispatch(Key::F(5), 0), Action::Execute);
    assert_eq!(w.dispatch(Key::F(5), 1), Action::NoOp);
    w.complete_execution(wayqa::response::Response::from_failure(String::from("x"), 1, 0));
    assert!(!w.request_running);
    assert_eq!(w.dispatch(Key::F(5), 2), Action::Execute);
    assert!(w.request_running);
}

#[test]
fn gates_are_independent() {
    let mut w = Wayqa::new();
    w.dispatch(Key::Char('l'), 5_000);
    w.dispatch(Key::Char('r'), 5_100);
    w.dispatch(Key::Char('m'), 5_200);
    assert_eq!(w.current_request.method, Method::POST);
    assert!(w.project_layout_visible);
    assert_eq!(w.layout_toggle_gate.last_fired, Some(5_000));
    assert_eq!(w.method_gate.last_fired, Some(5_200));
}

use vstd::prelude::*;
use vstd::string::*;
use vstd::utf8::encode_utf8;

use crate::debounce::{gate_fired, gate_open, DebounceGate, DEBOUNCE_WINDOW_MS};
use crate::request::{next_method, Method, Request};
use crate::response::Response;
use crate::tabs::{RequestTab, ResponseTab};
use crate::text_edit::{
    byte_offset, cursor_left, cursor_right, insert_char_at, remove_char_at, text_deleted_before,
    text_inserted,
};

verus! {

/// Top-level interaction context; it decides which keys mean something.
#[derive(Clone, Copy, Debug, PartialEq, Eq, Structural)]
pub enum InputMode {
    Normal,
    Project,
    Request,
    RequestUrl,
    RequestParamsTab,
    RequestResponseTab,
}

/// A key press, as the input loop hands it over.
#[derive(Clone, Copy, Debug, PartialEq, Eq, Structural)]
pub enum Key {
    Char(char),
    Esc,
    Tab,
    Backspace,
    Left,
    Right,
    Enter,
    F(u8),
    Other,
}

/// Function key that executes the current request.
pub const EXECUTE_FUNCTION_KEY: u8 = 5;

/// What the input loop has to do after a key press.
#[derive(Clone, Copy, Debug, PartialEq, Eq, Structural)]
pub enum Action {
    /// Nothing beyond redrawing.
    NoOp,
    /// End the session.
    Quit,
    /// Send the current request; the result comes back through
    /// `Wayqa::complete_execution`.
    Execute,
}

/// Session state: the single owner of everything the input loop and the
/// renderer work on.
pub struct Wayqa {
    pub input_mode: InputMode,
    pub in_project: bool,
    pub project_name: String,
    pub saved_info: bool,
    pub current_request: Request,
    pub project_layout_visible: bool,
    pub valid_request: bool,
    pub cursor_visible: bool,
    pub current_request_active_tab: RequestTab,
    pub current_response_active_tab: ResponseTab,
    /// Cursor in the URL, counted in characters.
    pub url_cursor_position: usize,
    pub layout_toggle_gate: DebounceGate,
    pub method_gate: DebounceGate,
    pub request_running: bool,
    /// Frame of the busy indicator, as a spinner's symbol index.
    pub throbber_frame: i8,
}

/// The part of the session state that key presses act on.
pub struct AppView {
    pub mode: InputMode,
    pub request_tab: RequestTab,
    pub response_tab: ResponseTab,
    pub method: Method,
    pub url: Seq<char>,
    pub cursor: nat,
    pub layout_visible: bool,
    pub layout_gate: DebounceGate,
    pub method_gate: DebounceGate,
    pub running: bool,
}

impl View for Wayqa {
    type V = AppView;

    open spec fn view(&self) -> AppView {
        AppView {
            mode: self.input_mode,
            request_tab: self.current_request_active_tab,
            response_tab: self.current_response_active_tab,
            method: self.current_request.method,
            url: self.current_request.url@,
            cursor: self.url_cursor_position as nat,
            layout_visible: self.project_layout_visible,
            layout_gate: self.layout_toggle_gate,
            method_gate: self.method_gate,
            running: self.request_running,
        }
    }
}

/// The cursor lies within the URL, and both gated actions use the debounce
/// window.
pub open spec fn view_wf(v: AppView) -> bool {
    &&& v.cursor <= v.url.len()
    &&& v.layout_gate.window == DEBOUNCE_WINDOW_MS
    &&& v.method_gate.window == DEBOUNCE_WINDOW_MS
}

/// The state after the mode becomes `m`.
pub open spec fn with_mode(v: AppView, m: InputMode) -> AppView {
    AppView { mode: m, ..v }
}

/// The state after selecting request pane `t`.
pub open spec fn with_request_tab(v: AppView, t: RequestTab) -> AppView {
    AppView { request_tab: t, ..v }
}

/// The state after an attempt, at time `now`, to toggle the project layout.
pub open spec fn layout_toggled(v: AppView, now: u64) -> AppView {
    let (g, fired) = gate_fired(v.layout_gate, now);
    AppView {
        layout_gate: g,
        layout_visible: if fired { !v.layout_visible } else { v.layout_visible },
        ..v
    }
}

/// The state after an attempt, at time `now`, to cycle the method.
pub open spec fn method_cycled(v: AppView, now: u64) -> AppView {
    let (g, fired) = gate_fired(v.method_gate, now);
    AppView {
        method_gate: g,
        method: if fired { next_method(v.method) } else { v.method },
        ..v
    }
}

/// The state and action after the execute key: nothing while a request is
/// in flight, otherwise the request starts.
pub open spec fn execution_started(v: AppView) -> (AppView, Action) {
    if v.running {
        (v, Action::NoOp)
    } else {
        (AppView { running: true, ..v }, Action::Execute)
    }
}

/// The state after the URL cursor moves to `p`.
pub open spec fn with_cursor(v: AppView, p: nat) -> AppView {
    AppView { cursor: p, ..v }
}

/// The state after the URL and cursor become `e`.
pub open spec fn with_text(v: AppView, e: (Seq<char>, nat)) -> AppView {
    AppView { url: e.0, cursor: e.1, ..v }
}

/// The transition table: state and action after `key` is pressed at time `now`.
pub open spec fn step(v: AppView, key: Key, now: u64) -> (AppView, Action) {
    match v.mode {
        InputMode::Normal => match key {
            Key::Char('q') => (v, Action::Quit),
            Key::Char('p') => (with_mode(v, InputMode::Project), Action::NoOp),
            Key::Char('r') => (with_mode(v, InputMode::Request), Action::NoOp),
            Key::Char('l') => (layout_toggled(v, now), Action::NoOp),
            _ => (v, Action::NoOp),
        },
        InputMode::Project => match key {
            Key::Esc => (with_mode(v, InputMode::Normal), Action::NoOp),
            Key::Char('n') => (with_mode(v, InputMode::Normal), Action::NoOp),
            _ => (v, Action::NoOp),
        },
        InputMode::Request => match key {
            Key::Esc => (with_mode(v, InputMode::Normal), Action::NoOp),
            Key::Char('u') => (with_mode(v, InputMode::RequestUrl), Action::NoOp),
            Key::Char('m') => (method_cycled(v, now), Action::NoOp),
            Key::Char('1') => (
                with_request_tab(with_mode(v, InputMode::RequestParamsTab), RequestTab::Params),
                Action::NoOp,
            ),
            Key::Char('2') => (with_request_tab(v, RequestTab::Authorization), Action::NoOp),
            Key::Char('3') => (with_request_tab(v, RequestTab::Headers), Action::NoOp),
            Key::Char('4') => (with_request_tab(v, RequestTab::Body), Action::NoOp),
            Key::Char('5') => (with_request_tab(v, RequestTab::Settings), Action::NoOp),
            Key::Char('6') => (
                with_request_tab(
                    with_mode(v, InputMode::RequestResponseTab),
                    RequestTab::Response,
                ),
                Action::NoOp,
            ),
            Key::F(n) => if n == EXECUTE_FUNCTION_KEY {
                execution_started(v)
            } else {
                (v, Action::NoOp)
            },
            _ => (v, Action::NoOp),
        },
        InputMode::RequestUrl => match key {
            Key::Tab => (with_mode(v, InputMode::Request), Action::NoOp),
            Key::Esc => (with_mode(v, InputMode::Request), Action::NoOp),
            Key::Left => (with_cursor(v, cursor_left(v.cursor, v.url.len())), Action::NoOp),
            Key::Right => (with_cursor(v, cursor_right(v.cursor, v.url.len())), Action::NoOp),
            Key::Char(c) => (with_text(v, text_inserted(v.url, v.cursor, c)), Action::NoOp),
            Key::Backspace => (with_text(v, text_deleted_before(v.url, v.cursor)), Action::NoOp),
            _ => (v, Action::NoOp),
        },
        InputMode::RequestParamsTab => match key {
            Key::Esc => (with_mode(v, InputMode::Request), Action::NoOp),
            _ => (v, Action::NoOp),
        },
        InputMode::RequestResponseTab => match key {
            Key::Esc => (with_mode(v, InputMode::Request), Action::NoOp),
            _ => (v, Action::NoOp),
        },
    }
}

/// The keys that the transition table lists for mode `m`.
pub open spec fn key_in_table(m: InputMode, key: Key) -> bool {
    match m {
        InputMode::Normal => key == Key::Char('q') || key == Key::Char('p') || key == Key::Char(
            'r',
        ) || key == Key::Char('l'),
        InputMode::Project => key == Key::Esc || key == Key::Char('n'),
        InputMode::Request => key == Key::Esc || key == Key::Char('u') || key == Key::Char('m')
            || key == Key::Char('1') || key == Key::Char('2') || key == Key::Char('3') || key
            == Key::Char('4') || key == Key::Char('5') || key == Key::Char('6') || key == Key::F(
            EXECUTE_FUNCTION_KEY,
        ),
        InputMode::RequestUrl => key == Key::Tab || key == Key::Esc || key == Key::Left || key
            == Key::Right || key is Char || key == Key::Backspace,
        InputMode::RequestParamsTab => key == Key::Esc,
        InputMode::RequestResponseTab => key == Key::Esc,
    }
}

/// A key that the table does not list for the current mode changes nothing
/// and asks for nothing.
pub proof fn lemma_unlisted_key_is_noop(v: AppView, key: Key, now: u64)
    requires
        !key_in_table(v.mode, key),
    ensures
        step(v, key, now) == (v, Action::NoOp),
{
}

/// The key of the response pane changes the mode and the selected pane
/// together, in one step.
pub proof fn lemma_response_pane_key(v: AppView, now: u64)
    requires
        v.mode == InputMode::Request,
    ensures
        step(v, Key::Char('6'), now).0 == (AppView {
            mode: InputMode::RequestResponseTab,
            request_tab: RequestTab::Response,
            ..v
        }),
{
}

/// While a request is in flight no key starts another one; a key that starts
/// one marks the session as running.
pub proof fn lemma_single_execution(v: AppView, key: Key, now: u64)
    ensures
        v.running ==> step(v, key, now).1 != Action::Execute,
        step(v, key, now).1 == Action::Execute ==> step(v, key, now).0.running,
{
}

/// Pressing the method key twice in the request mode, the first time with its
/// gate open: the first press cycles the method. The second cycles it again
/// exactly when more than the debounce window separates the presses; a
/// refused press changes nothing. The layout gate is never touched.
pub proof fn lemma_method_key_twice(v: AppView, t1: u64, t2: u64)
    requires
        view_wf(v),
        v.mode == InputMode::Request,
        gate_open(v.method_gate, t1),
    ensures
        step(v, Key::Char('m'), t1).0.method == next_method(v.method),
        step(v, Key::Char('m'), t1).0.method_gate.last_fired == Some(t1),
        t2 - t1 <= DEBOUNCE_WINDOW_MS ==> step(step(v, Key::Char('m'), t1).0, Key::Char('m'), t2).0
            == step(v, Key::Char('m'), t1).0,
        t2 - t1 > DEBOUNCE_WINDOW_MS ==> step(step(v, Key::Char('m'), t1).0, Key::Char('m'), t2).0
            == (AppView {
            method: next_method(next_method(v.method)),
            method_gate: DebounceGate { last_fired: Some(t2), window: DEBOUNCE_WINDOW_MS },
            ..v
        }),
        step(step(v, Key::Char('m'), t1).0, Key::Char('m'), t2).0.layout_gate == v.layout_gate,
{
}

/// Pressing the layout key twice in the normal mode, the first time with its
/// gate open: the first press toggles the layout. The second toggles it back
/// exactly when more than the debounce window separates the presses; a
/// refused press changes nothing. The method gate is never touched.
pub proof fn lemma_layout_key_twice(v: AppView, t1: u64, t2: u64)
    requires
        view_wf(v),
        v.mode == InputMode::Normal,
        gate_open(v.layout_gate, t1),
    ensures
        step(v, Key::Char('l'), t1).0.layout_visible == !v.layout_visible,
        step(v, Key::Char('l'), t1).0.layout_gate.last_fired == Some(t1),
        t2 - t1 <= DEBOUNCE_WINDOW_MS ==> step(step(v, Key::Char('l'), t1).0, Key::Char('l'), t2).0
            == step(v, Key::Char('l'), t1).0,
        t2 - t1 > DEBOUNCE_WINDOW_MS ==> step(step(v, Key::Char('l'), t1).0, Key::Char('l'), t2).0
            == (AppView {
            layout_gate: DebounceGate { last_fired: Some(t2), window: DEBOUNCE_WINDOW_MS },
            ..v
        }),
        step(step(v, Key::Char('l'), t1).0, Key::Char('l'), t2).0.method_gate == v.method_gate,
{
}

/// Something that happens to a session: a key press at a time, or the
/// completion of an execution in flight.
pub enum SessionEvent {
    Press(Key, u64),
    Completion,
}

/// The state after `Wayqa::complete_execution`.
pub open spec fn completed(v: AppView) -> AppView {
    AppView { running: false, ..v }
}

/// State and number of executions in flight after one event. A press that
/// asks for an execution starts one; a completion ends one, if any is in
/// flight.
pub open spec fn event_step(v: AppView, in_flight: nat, e: SessionEvent) -> (AppView, nat) {
    match e {
        SessionEvent::Press(key, now) => {
            let (w, action) = step(v, key, now);
            (w, if action == Action::Execute { in_flight + 1 } else { in_flight })
        },
        SessionEvent::Completion => if in_flight > 0 {
            (completed(v), (in_flight - 1) as nat)
        } else {
            (v, in_flight)
        },
    }
}

/// State and number of executions in flight after a sequence of events.
pub open spec fn session_after(v: AppView, in_flight: nat, events: Seq<SessionEvent>) -> (
    AppView,
    nat,
)
    decreases events.len(),
{
    if events.len() == 0 {
        (v, in_flight)
    } else {
        let (w, n) = session_after(v, in_flight, events.drop_last());
        event_step(w, n, events.last())
    }
}

/// From a new session, whatever keys are pressed and executions complete, at
/// most one execution is in flight, and the running flag says whether one is.
pub proof fn lemma_single_execution_in_flight(events: Seq<SessionEvent>)
    ensures
        session_after(initial_view(), 0, events).1 <= 1,
        session_after(initial_view(), 0, events).0.running <==> session_after(
            initial_view(),
            0,
            events,
        ).1 == 1,
    decreases events.len(),
{
    if events.len() > 0 {
        lemma_single_execution_in_flight(events.drop_last());
        let (w, n) = session_after(initial_view(), 0, events.drop_last());
        match events.last() {
            SessionEvent::Press(key, now) => {
                lemma_single_execution(w, key, now);
            },
            SessionEvent::Completion => {},
        }
    }
}

/// Every step keeps the cursor within the URL and the gates' windows.
pub proof fn lemma_step_keeps_cursor_in_url(v: AppView, key: Key, now: u64)
    requires
        view_wf(v),
    ensures
        view_wf(step(v, key, now).0),
{
}

/// The busy indicator's next frame: one more, and back to the first instead
/// of overflowing (the stepping of throbber_widgets_tui's `calc_next`).
pub open spec fn next_frame(i: i8) -> i8 {
    if i == i8::MAX {
        0
    } else {
        (i + 1) as i8
    }
}

/// The parts of the session that key presses leave alone.
pub open spec fn same_context(a: Wayqa, b: Wayqa) -> bool {
    &&& a.in_project == b.in_project
    &&& a.project_name == b.project_name
    &&& a.saved_info == b.saved_info
    &&& a.valid_request == b.valid_request
    &&& a.cursor_visible == b.cursor_visible
    &&& a.current_request.response == b.current_request.response
    &&& a.throbber_frame == b.throbber_frame
}

/// State of a new session.
pub open spec fn initial_view() -> AppView {
    AppView {
        mode: InputMode::Normal,
        request_tab: RequestTab::Params,
        response_tab: ResponseTab::Body,
        method: Method::GET,
        url: Seq::empty(),
        cursor: 0,
        layout_visible: false,
        layout_gate: DebounceGate { last_fired: None, window: DEBOUNCE_WINDOW_MS },
        method_gate: DebounceGate { last_fired: None, window: DEBOUNCE_WINDOW_MS },
        running: false,
    }
}

impl Wayqa {
    /// The cursor lies within the URL, and both gates use the debounce window.
    pub open spec fn wf(&self) -> bool {
        view_wf(self@)
    }

    /// A new session: normal mode, an empty GET request, nothing running.
    pub fn new() -> (r: Wayqa)
        ensures
            r@ == initial_view(),
            r.wf(),
            !r.in_project,
            r.project_name@ == Seq::<char>::empty(),
            !r.saved_info,
            !r.valid_request,
            r.cursor_visible,
            r.current_request.response is None,
            r.throbber_frame == 0,
    {
        Wayqa {
            input_mode: InputMode::Normal,
            in_project: false,
            project_name: String::new(),
            saved_info: false,
            current_request: Request::new(),
            project_layout_visible: false,
            valid_request: false,
            cursor_visible: true,
            current_request_active_tab: RequestTab::Params,
            current_response_active_tab: ResponseTab::Body,
            url_cursor_position: 0,
            layout_toggle_gate: DebounceGate::new(DEBOUNCE_WINDOW_MS),
            method_gate: DebounceGate::new(DEBOUNCE_WINDOW_MS),
            request_running: false,
            throbber_frame: 0,
        }
    }

    /// Whether the current request may be sent; no request counts as valid
    /// yet, and the session is left as it was.
    pub fn check_valid_request(&mut self) -> (r: bool)
        ensures
            !r,
            *final(self) == *old(self),
    {
        false
    }

    pub fn change_mode(&mut self, mode: InputMode)
        ensures
            final(self)@ == with_mode(old(self)@, mode),
            same_context(*old(self), *final(self)),
    {
        self.input_mode = mode;
    }

    pub fn toggle_project_layout(&mut self)
        ensures
            final(self)@ == (AppView { layout_visible: !old(self)@.layout_visible, ..old(self)@ }),
            same_context(*old(self), *final(self)),
    {
        self.project_layout_visible = !self.project_layout_visible;
    }

    /// `p` clamped to the URL's length in characters.
    fn clamp_cursor_request_url(&self, p: usize) -> (r: usize)
        ensures
            r == if p > self.current_request.url@.len() {
                self.current_request.url@.len()
            } else {
                p as nat
            },
            self.current_request.url@.len() <= usize::MAX,
    {
        let len = self.current_request.url.as_str().unicode_len();
        if p > len {
            len
        } else {
            p
        }
    }

    /// Moves the URL cursor one character left, stopping at the start.
    pub fn move_cursor_url_left(&mut self)
        ensures
            final(self)@ == with_cursor(
                old(self)@,
                cursor_left(old(self)@.cursor, old(self)@.url.len()),
            ),
            old(self).wf() ==> final(self).wf(),
            final(self)@.cursor <= final(self)@.url.len(),
            same_context(*old(self), *final(self)),
    {
        let moved = self.url_cursor_position.saturating_sub(1);
        self.url_cursor_position = self.clamp_cursor_request_url(moved);
    }

    /// Moves the URL cursor one character right, stopping at the end.
    pub fn move_cursor_url_right(&mut self)
        ensures
            final(self)@ == with_cursor(
                old(self)@,
                cursor_right(old(self)@.cursor, old(self)@.url.len()),
            ),
            old(self).wf() ==> final(self).wf(),
            final(self)@.cursor <= final(self)@.url.len(),
            same_context(*old(self), *final(self)),
    {
        let moved = self.url_cursor_position.saturating_add(1);
        self.url_cursor_position = self.clamp_cursor_request_url(moved);
    }

    /// Inserts `new_char` at the URL cursor and moves the cursor past it.
    pub fn enter_char_request_url(&mut self, new_char: char)
        requires
            old(self).wf(),
        ensures
            final(self)@ == with_text(
                old(self)@,
                text_inserted(old(self)@.url, old(self)@.cursor, new_char),
            ),
            final(self).wf(),
            same_context(*old(self), *final(self)),
    {
        let url = insert_char_at(
            self.current_request.url.as_str(),
            self.url_cursor_position,
            new_char,
        );
        self.current_request.url = url;
        self.move_cursor_url_right();
    }

    /// Byte offset of the URL cursor in the URL's UTF-8 encoding.
    pub fn byte_index_request_url(&self) -> (r: usize)
        requires
            self.wf(),
        ensures
            r == encode_utf8(self@.url.subrange(0, self@.cursor as int)).len() as usize,
    {
        byte_offset(self.current_request.url.as_str(), self.url_cursor_position)
    }

    /// Deletes the character before the URL cursor and moves the cursor back;
    /// nothing happens at the start of the URL.
    pub fn delete_char_request_url(&mut self)
        requires
            old(self).wf(),
        ensures
            final(self)@ == with_text(
                old(self)@,
                text_deleted_before(old(self)@.url, old(self)@.cursor),
            ),
            final(self).wf(),
            same_context(*old(self), *final(self)),
    {
        if self.url_cursor_position != 0 {
            let url = remove_char_at(
                self.current_request.url.as_str(),
                self.url_cursor_position - 1,
            );
            self.current_request.url = url;
            self.move_cursor_url_left();
        }
    }

    /// Toggles the project layout if its gate lets the attempt at `now` through.
    pub fn try_toggle_project_layout(&mut self, now: u64)
        ensures
            final(self)@ == layout_toggled(old(self)@, now),
            same_context(*old(self), *final(self)),
    {
        if self.layout_toggle_gate.try_fire(now) {
            self.toggle_project_layout();
        }
    }

    /// Cycles the method if its gate lets the attempt at `now` through.
    pub fn try_change_next_method(&mut self, now: u64)
        ensures
            final(self)@ == method_cycled(old(self)@, now),
            same_context(*old(self), *final(self)),
    {
        if self.method_gate.try_fire(now) {
            self.current_request.change_next_method();
        }
    }

    /// Marks the request as running unless one already is.
    pub fn start_execution(&mut self) -> (r: Action)
        ensures
            (final(self)@, r) == execution_started(old(self)@),
            same_context(*old(self), *final(self)),
    {
        if self.request_running {
            Action::NoOp
        } else {
            self.request_running = true;
            Action::Execute
        }
    }

    /// Installs the response of the execution in flight, replacing the
    /// previous one, and clears the running flag.
    pub fn complete_execution(&mut self, response: Response)
        ensures
            final(self).current_request.response == Some(response),
            final(self)@ == completed(old(self)@),
            final(self).in_project == old(self).in_project,
            final(self).project_name == old(self).project_name,
            final(self).saved_info == old(self).saved_info,
            final(self).valid_request == old(self).valid_request,
            final(self).cursor_visible == old(self).cursor_visible,
            final(self).throbber_frame == old(self).throbber_frame,
    {
        self.current_request.response = Some(response);
        self.request_running = false;
    }

    /// Advances the busy indicator by one frame.
    pub fn on_tick(&mut self)
        ensures
            final(self).throbber_frame == next_frame(old(self).throbber_frame),
            final(self)@ == old(self)@,
            final(self).in_project == old(self).in_project,
            final(self).project_name == old(self).project_name,
            final(self).saved_info == old(self).saved_info,
            final(self).valid_request == old(self).valid_request,
            final(self).cursor_visible == old(self).cursor_visible,
            final(self).current_request.response == old(self).current_request.response,
    {
        self.throbber_frame = if self.throbber_frame == i8::MAX {
            0
        } else {
            self.throbber_frame + 1
        };
    }

    /// Acts on a key pressed at time `now` (milliseconds on the caller's
    /// monotonic clock) as the transition table says, and tells the input
    /// loop what to do next.
    pub fn dispatch(&mut self, key: Key, now: u64) -> (r: Action)
        requires
            old(self).wf(),
        ensures
            (final(self)@, r) == step(old(self)@, key, now),
            final(self).wf(),
            same_context(*old(self), *final(self)),
    {
        match self.input_mode {
            InputMode::Normal => match key {
                Key::Char('q') => Action::Quit,
                Key::Char('p') => {
                    self.change_mode(InputMode::Project);
                    Action::NoOp
                },
                Key::Char('r') => {
                    self.change_mode(InputMode::Request);
                    Action::NoOp
                },
                Key::Char('l') => {
                    self.try_toggle_project_layout(now);
                    Action::NoOp
                },
                _ => Action::NoOp,
            },
            InputMode::Project => match key {
                Key::Esc | Key::Char('n') => {
                    self.change_mode(InputMode::Normal);
                    Action::NoOp
                },
                _ => Action::NoOp,
            },
            InputMode::Request => match key {
                Key::Esc => {
                    self.change_mode(InputMode::Normal);
                    Action::NoOp
                },
                Key::Char('u') => {
                    self.change_mode(InputMode::RequestUrl);
                    Action::NoOp
                },
                Key::Char('m') => {
                    self.try_change_next_method(now);
                    Action::NoOp
                },
                Key::Char('1') => {
                    self.change_mode(InputMode::RequestParamsTab);
                    self.current_request_active_tab = RequestTab::Params;
                    Action::NoOp
                },
                Key::Char('2') => {
                    self.current_request_active_tab = RequestTab::Authorization;
                    Action::NoOp
                },
                Key::Char('3') => {
                    self.current_request_active_tab = RequestTab::Headers;
                    Action::NoOp
                },
                Key::Char('4') => {
                    self.current_request_active_tab = RequestTab::Body;
                    Action::NoOp
                },
                Key::Char('5') => {
                    self.current_request_active_tab = RequestTab::Settings;
                    Action::NoOp
                },
                Key::Char('6') => {
                    self.change_mode(InputMode::RequestResponseTab);
                    self.current_request_active_tab = RequestTab::Response;
                    Action::NoOp
                },
                Key::F(n) => {
                    if n == EXECUTE_FUNCTION_KEY {
                        self.start_execution()
                    } else {
                        Action::NoOp
                    }
                },
                _ => Action::NoOp,
            },
            InputMode::RequestUrl => match key {
                Key::Tab | Key::Esc => {
                    self.change_mode(InputMode::Request);
                    Action::NoOp
                },
                Key::Left => {
                    self.move_cursor_url_left();
                    Action::NoOp
                },
                Key::Right => {
                    self.move_cursor_url_right();
                    Action::NoOp
                },
                Key::Char(c) => {
                    self.enter_char_request_url(c);
                    Action::NoOp
                },
                Key::Backspace => {
                    self.delete_char_request_url();
                    Action::NoOp
                },
                _ => Action::NoOp,
            },
            InputMode::RequestParamsTab | InputMode::RequestResponseTab => match key {
                Key::Esc => {
                    self.change_mode(InputMode::Request);
                    Action::NoOp
                },
                _ => Action::NoOp,
            },
        }
    }
}

} // verus!

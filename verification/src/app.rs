//! The pane focus model: one state machine owning every filter field, the
//! free-text search, the log page and its pagination counters. It decides
//! which control receives each keystroke and which backend action, if any,
//! the caller must perform next.

use vstd::prelude::*;
use vstd::string::StringExecFns;

use crate::filter_field::FilterField;
use crate::filter_field::FilterView;
use crate::query::dec_str;
use crate::query::lemma_dec_value_nonneg;
use crate::query::parse_page_size;
use crate::query::spec_page_size;
use crate::query::spec_time_expr;
use crate::query::spec_total_pages;
use crate::query::time_range_expr;
use crate::query::total_pages_for;
use crate::query::u64_to_dec;
use crate::query::AvailableFilters;
use crate::query::LogEntry;
use crate::query::QueryParams;
use crate::text::pop_char;
use crate::text::push_char;
use crate::text::str_eq;
use crate::CONTEXT_MENU_LEN;

verus! {

/// The single UI region currently receiving keystrokes.
#[derive(Debug, Clone, Copy, PartialEq, Eq, Structural)]
pub enum Pane {
    Profile,
    Application,
    Severity,
    TimeRange,
    Limit,
    Search,
    SearchMode,
    Logs,
    LogContext,
}

/// A keystroke, reduced to what the state machine distinguishes.
#[derive(Debug, Clone, Copy)]
pub enum Key {
    Char(char),
    Up,
    Down,
    Left,
    Right,
    Enter,
    Backspace,
    Esc,
}

/// What the caller must do after a keystroke was handled: nothing, quit,
/// fetch the given page, or hand the given text to the clipboard or editor
/// collaborator.
#[derive(Debug)]
pub enum Action {
    Nothing,
    Quit,
    Fetch(u64),
    CopyText(String),
    EditText(String),
}

/// Ghost image of an `Action`.
pub enum ActionView {
    Nothing,
    Quit,
    Fetch(u64),
    CopyText(Seq<char>),
    EditText(Seq<char>),
}

impl View for Action {
    type V = ActionView;

    open spec fn view(&self) -> ActionView {
        match self {
            Action::Nothing => ActionView::Nothing,
            Action::Quit => ActionView::Quit,
            Action::Fetch(p) => ActionView::Fetch(*p),
            Action::CopyText(s) => ActionView::CopyText(s@),
            Action::EditText(s) => ActionView::EditText(s@),
        }
    }
}

/// The mathematical state of the whole pane machine.
pub struct AppView {
    pub focused: Pane,
    pub profile: FilterView,
    pub application: FilterView,
    pub severity: FilterView,
    pub time: FilterView,
    pub limit: FilterView,
    pub search_mode: FilterView,
    pub search_text: Seq<char>,
    pub logs: Seq<LogEntry>,
    pub log_index: usize,
    pub total_hits: u64,
    pub page: u64,
    pub context_cursor: usize,
    pub status: Seq<char>,
}

impl AppView {
    pub open spec fn wf(self) -> bool {
        &&& self.profile.wf()
        &&& self.application.wf()
        &&& self.severity.wf()
        &&& self.time.wf()
        &&& self.limit.wf()
        &&& self.search_mode.wf()
        &&& (if self.logs.len() == 0 {
            self.log_index == 0
        } else {
            self.log_index < self.logs.len()
        })
        &&& self.page >= 1
        &&& self.context_cursor < CONTEXT_MENU_LEN
    }
}

/// The panes that own a `FilterField`.
pub open spec fn is_filter_pane(p: Pane) -> bool {
    match p {
        Pane::Profile => true,
        Pane::Application => true,
        Pane::Severity => true,
        Pane::TimeRange => true,
        Pane::Limit => true,
        Pane::SearchMode => true,
        _ => false,
    }
}

/// The filter field a filter pane owns.
pub open spec fn filter_of(a: AppView, p: Pane) -> FilterView {
    match p {
        Pane::Profile => a.profile,
        Pane::Application => a.application,
        Pane::Severity => a.severity,
        Pane::TimeRange => a.time,
        Pane::Limit => a.limit,
        _ => a.search_mode,
    }
}

/// `a` with the filter field of pane `p` replaced by `f`.
pub open spec fn with_filter(a: AppView, p: Pane, f: FilterView) -> AppView {
    match p {
        Pane::Profile => AppView { profile: f, ..a },
        Pane::Application => AppView { application: f, ..a },
        Pane::Severity => AppView { severity: f, ..a },
        Pane::TimeRange => AppView { time: f, ..a },
        Pane::Limit => AppView { limit: f, ..a },
        _ => AppView { search_mode: f, ..a },
    }
}

/// Effect of the hotkey that focuses pane `p`: its field reopens and the
/// focus moves there.
pub open spec fn open_pane(a: AppView, p: Pane) -> AppView {
    with_filter(AppView { focused: p, ..a }, p, filter_of(a, p).open())
}

/// The filter-dimension pane a hotkey character focuses, if any.
pub open spec fn hotkey_pane(c: char) -> Option<Pane> {
    if c == 'P' {
        Some(Pane::Profile)
    } else if c == 'A' {
        Some(Pane::Application)
    } else if c == 'S' {
        Some(Pane::Severity)
    } else if c == 'T' {
        Some(Pane::TimeRange)
    } else if c == 'N' {
        Some(Pane::Limit)
    } else if c == 'M' {
        Some(Pane::SearchMode)
    } else {
        None
    }
}

/// The committed environment: the selected profile value, if any.
pub open spec fn spec_selected_env(a: AppView) -> Option<Seq<char>> {
    a.profile.selected_value()
}

/// The committed application, with the "ALL" sentinel meaning "omitted".
pub open spec fn spec_selected_app(a: AppView) -> Option<Seq<char>> {
    match a.application.selected_value() {
        Some(v) => if v == "ALL"@ {
            None
        } else {
            Some(v)
        },
        None => None,
    }
}

/// The committed severity, with the "ALL" sentinel meaning "omitted".
pub open spec fn spec_selected_severity(a: AppView) -> Option<Seq<char>> {
    match a.severity.selected_value() {
        Some(v) => if v == "ALL"@ {
            None
        } else {
            Some(v)
        },
        None => None,
    }
}

/// The committed time range as a relative expression.
pub open spec fn spec_time_range(a: AppView) -> Seq<char> {
    spec_time_expr(a.time.selected_value())
}

/// The committed page size.
pub open spec fn spec_limit(a: AppView) -> int {
    spec_page_size(a.limit.selected_value())
}

/// The committed search mode: exact phrase match or per-word containment.
pub open spec fn spec_search_exact(a: AppView) -> bool {
    a.search_mode.selected_value() == Some("Exact"@)
}

/// The page count the current totals make.
pub open spec fn spec_pages(a: AppView) -> int {
    spec_total_pages(a.total_hits as int, spec_limit(a))
}

/// The human-readable label of the current filter combination.
pub open spec fn spec_label(a: AppView) -> Seq<char> {
    let app_label = match spec_selected_app(a) {
        Some(v) => v,
        None => "ALL"@,
    };
    let env = match spec_selected_env(a) {
        Some(e) => e,
        None => Seq::empty(),
    };
    let base = app_label + " ("@ + env + ")"@;
    match spec_selected_severity(a) {
        Some(s) => base + " ["@ + s + "]"@,
        None => base,
    }
}

/// The text the context-menu actions operate on: the record's message,
/// with its stack trace appended on a new line when one is present.
pub open spec fn context_text(e: LogEntry) -> Seq<char> {
    if e.stacktrace@.len() == 0 {
        e.message@
    } else {
        e.message@ + seq!['\n'] + e.stacktrace@
    }
}

/// Transition table while the logs pane is focused.
pub open spec fn step_logs(a: AppView, key: Key) -> (AppView, ActionView) {
    match key {
        Key::Char(c) => {
            if c == 'q' {
                (a, ActionView::Quit)
            } else if hotkey_pane(c) is Some {
                (open_pane(a, hotkey_pane(c).unwrap()), ActionView::Nothing)
            } else if c == '/' {
                (AppView { focused: Pane::Search, ..a }, ActionView::Nothing)
            } else if c == 'R' {
                (a, ActionView::Fetch(a.page))
            } else if c == 'j' {
                (scroll_down_state(a), ActionView::Nothing)
            } else if c == 'k' {
                (scroll_up_state(a), ActionView::Nothing)
            } else if c == 'l' {
                (a, next_page_action(a))
            } else if c == 'h' {
                (a, prev_page_action(a))
            } else {
                (a, ActionView::Nothing)
            }
        },
        Key::Down => (scroll_down_state(a), ActionView::Nothing),
        Key::Up => (scroll_up_state(a), ActionView::Nothing),
        Key::Right => (a, next_page_action(a)),
        Key::Left => (a, prev_page_action(a)),
        Key::Enter => {
            if a.logs.len() > 0 {
                (
                    AppView { focused: Pane::LogContext, context_cursor: 0usize, ..a },
                    ActionView::Nothing,
                )
            } else {
                (a, ActionView::Nothing)
            }
        },
        _ => (a, ActionView::Nothing),
    }
}

pub open spec fn scroll_down_state(a: AppView) -> AppView {
    if a.logs.len() == 0 {
        a
    } else if a.log_index + 1 < a.logs.len() {
        AppView { log_index: (a.log_index + 1) as usize, ..a }
    } else {
        AppView { log_index: (a.logs.len() - 1) as usize, ..a }
    }
}

pub open spec fn scroll_up_state(a: AppView) -> AppView {
    if a.log_index == 0 {
        a
    } else {
        AppView { log_index: (a.log_index - 1) as usize, ..a }
    }
}

/// A page-forward request: fetch the next page unless already on the last.
pub open spec fn next_page_action(a: AppView) -> ActionView {
    if a.page < spec_pages(a) {
        ActionView::Fetch((a.page + 1) as u64)
    } else {
        ActionView::Nothing
    }
}

/// A page-back request: fetch the previous page unless already on the first.
pub open spec fn prev_page_action(a: AppView) -> ActionView {
    if a.page > 1 {
        ActionView::Fetch((a.page - 1) as u64)
    } else {
        ActionView::Nothing
    }
}

/// Transition table while a filter-dimension pane is focused.
pub open spec fn step_filter(a: AppView, key: Key) -> (AppView, ActionView) {
    let p = a.focused;
    let f = filter_of(a, p);
    match key {
        Key::Char(c) => {
            if hotkey_pane(c) is Some {
                (open_pane(a, hotkey_pane(c).unwrap()), ActionView::Nothing)
            } else if c == '/' {
                (AppView { focused: Pane::Search, ..a }, ActionView::Nothing)
            } else if c == 'L' {
                (AppView { focused: Pane::Logs, ..a }, ActionView::Nothing)
            } else {
                (with_filter(a, p, f.type_char(c)), ActionView::Nothing)
            }
        },
        Key::Backspace => (with_filter(a, p, f.backspace()), ActionView::Nothing),
        Key::Down => (with_filter(a, p, f.next()), ActionView::Nothing),
        Key::Up => (with_filter(a, p, f.previous()), ActionView::Nothing),
        Key::Enter => {
            let committed = with_filter(a, p, f.confirm());
            if p is SearchMode {
                (AppView { focused: Pane::Logs, ..committed }, ActionView::Nothing)
            } else {
                (committed, ActionView::Fetch(1u64))
            }
        },
        Key::Esc => (AppView { focused: Pane::Logs, ..a }, ActionView::Nothing),
        _ => (a, ActionView::Nothing),
    }
}

/// Transition table while the free-text search pane is focused.
pub open spec fn step_search(a: AppView, key: Key) -> (AppView, ActionView) {
    match key {
        Key::Char(c) => (
            AppView { search_text: a.search_text.push(c), ..a },
            ActionView::Nothing,
        ),
        Key::Backspace => (
            AppView {
                search_text: if a.search_text.len() == 0 {
                    a.search_text
                } else {
                    a.search_text.drop_last()
                },
                ..a
            },
            ActionView::Nothing,
        ),
        Key::Enter => (a, ActionView::Fetch(1u64)),
        Key::Esc => (AppView { focused: Pane::Logs, ..a }, ActionView::Nothing),
        _ => (a, ActionView::Nothing),
    }
}

/// Transition table while the log-context action menu is focused.
pub open spec fn step_context(a: AppView, key: Key) -> (AppView, ActionView) {
    match key {
        Key::Char(c) => {
            if c == 'j' {
                (context_down_state(a), ActionView::Nothing)
            } else if c == 'k' {
                (context_up_state(a), ActionView::Nothing)
            } else {
                (a, ActionView::Nothing)
            }
        },
        Key::Down => (context_down_state(a), ActionView::Nothing),
        Key::Up => (context_up_state(a), ActionView::Nothing),
        Key::Enter => {
            let back = AppView { focused: Pane::Logs, ..a };
            if a.log_index < a.logs.len() {
                let text = context_text(a.logs[a.log_index as int]);
                if a.context_cursor == 0 {
                    (back, ActionView::CopyText(text))
                } else {
                    (back, ActionView::EditText(text))
                }
            } else {
                (back, ActionView::Nothing)
            }
        },
        Key::Esc => (AppView { focused: Pane::Logs, ..a }, ActionView::Nothing),
        _ => (a, ActionView::Nothing),
    }
}

pub open spec fn context_down_state(a: AppView) -> AppView {
    if a.context_cursor + 1 < CONTEXT_MENU_LEN {
        AppView { context_cursor: (a.context_cursor + 1) as usize, ..a }
    } else {
        AppView { context_cursor: (CONTEXT_MENU_LEN - 1) as usize, ..a }
    }
}

pub open spec fn context_up_state(a: AppView) -> AppView {
    if a.context_cursor == 0 {
        a
    } else {
        AppView { context_cursor: (a.context_cursor - 1) as usize, ..a }
    }
}

/// The whole transition table: one row per (focused pane, key) pair.
pub open spec fn spec_step(a: AppView, key: Key) -> (AppView, ActionView) {
    match a.focused {
        Pane::Logs => step_logs(a, key),
        Pane::Search => step_search(a, key),
        Pane::LogContext => step_context(a, key),
        _ => step_filter(a, key),
    }
}

/// The pane state machine: all interactive state of the client.
pub struct App {
    pub focused: Pane,
    pub profile_filter: FilterField,
    pub app_filter: FilterField,
    pub severity_filter: FilterField,
    pub time_filter: FilterField,
    pub limit_filter: FilterField,
    pub search_text: String,
    pub search_mode_filter: FilterField,
    pub logs: Vec<LogEntry>,
    pub log_index: usize,
    pub total_hits: u64,
    pub page: u64,
    pub context_cursor: usize,
    pub status: String,
}

impl View for App {
    type V = AppView;

    open spec fn view(&self) -> AppView {
        AppView {
            focused: self.focused,
            profile: self.profile_filter@,
            application: self.app_filter@,
            severity: self.severity_filter@,
            time: self.time_filter@,
            limit: self.limit_filter@,
            search_mode: self.search_mode_filter@,
            search_text: self.search_text@,
            logs: self.logs@,
            log_index: self.log_index,
            total_hits: self.total_hits,
            page: self.page,
            context_cursor: self.context_cursor,
            status: self.status@,
        }
    }
}

impl App {
    pub open spec fn wf(&self) -> bool {
        self@.wf()
    }

    pub fn new() -> (r: App)
        ensures
            r.wf(),
            r@.focused == Pane::Logs,
            r@.profile.items.len() == 0,
            r@.application.items.len() == 0,
            r@.severity.items.len() == 0,
            r@.time.items.len() == 0,
            r@.limit.items.len() == 0,
            r@.search_mode.items =~= seq!["Each word"@, "Exact"@],
            r@.search_mode.selected == 0,
            r@.search_text.len() == 0,
            r@.logs.len() == 0,
            r@.log_index == 0,
            r@.total_hits == 0,
            r@.page == 1,
            r@.context_cursor == 0,
            r@.status == "Loading filters..."@,
    {
        let mut search_mode_filter = FilterField::new();
        let mut modes: Vec<String> = Vec::new();
        modes.push("Each word".to_owned());
        modes.push("Exact".to_owned());
        proof {
            assert(modes.deep_view() =~= seq!["Each word"@, "Exact"@]);
        }
        search_mode_filter.set_items(modes);
        App {
            focused: Pane::Logs,
            profile_filter: FilterField::new(),
            app_filter: FilterField::new(),
            severity_filter: FilterField::new(),
            time_filter: FilterField::new(),
            limit_filter: FilterField::new(),
            search_text: String::new(),
            search_mode_filter,
            logs: Vec::new(),
            log_index: 0,
            total_hits: 0,
            page: 1,
            context_cursor: 0,
            status: "Loading filters...".to_owned(),
        }
    }

    /// The committed environment.
    pub fn selected_env(&self) -> (r: Option<&str>)
        requires
            self.wf(),
        ensures
            match r {
                Some(v) => spec_selected_env(self@) == Some(v@),
                None => spec_selected_env(self@) is None,
            },
    {
        self.profile_filter.selected_value()
    }

    /// The committed application; the "ALL" sentinel reads as "none".
    pub fn selected_app(&self) -> (r: Option<&str>)
        requires
            self.wf(),
        ensures
            match r {
                Some(v) => spec_selected_app(self@) == Some(v@),
                None => spec_selected_app(self@) is None,
            },
    {
        match self.app_filter.selected_value() {
            Some(v) => if str_eq(v, "ALL") {
                None
            } else {
                Some(v)
            },
            None => None,
        }
    }

    /// The committed severity; the "ALL" sentinel reads as "none".
    pub fn selected_severity(&self) -> (r: Option<&str>)
        requires
            self.wf(),
        ensures
            match r {
                Some(v) => spec_selected_severity(self@) == Some(v@),
                None => spec_selected_severity(self@) is None,
            },
    {
        match self.severity_filter.selected_value() {
            Some(v) => if str_eq(v, "ALL") {
                None
            } else {
                Some(v)
            },
            None => None,
        }
    }

    /// The committed time range as a relative expression.
    pub fn selected_time_range(&self) -> (r: &str)
        requires
            self.wf(),
        ensures
            r@ == spec_time_range(self@),
    {
        match self.time_filter.selected_value() {
            Some(v) => time_range_expr(v),
            None => "now-5m",
        }
    }

    /// The committed page size; `100` when unset or unparseable.
    pub fn selected_limit(&self) -> (r: i64)
        requires
            self.wf(),
        ensures
            r == spec_limit(self@),
            r >= 0,
    {
        match self.limit_filter.selected_value() {
            Some(v) => match parse_page_size(v) {
                Some(x) => {
                    proof {
                        lemma_dec_value_nonneg(v@);
                    }
                    x
                },
                None => 100,
            },
            None => 100,
        }
    }

    /// Whether the committed search mode asks for exact phrase matching.
    pub fn search_exact(&self) -> (r: bool)
        requires
            self.wf(),
        ensures
            r == spec_search_exact(self@),
    {
        match self.search_mode_filter.selected_value() {
            Some(v) => str_eq(v, "Exact"),
            None => false,
        }
    }

    /// The page count the current totals make, at least `1`.
    pub fn total_pages(&self) -> (r: u64)
        requires
            self.wf(),
        ensures
            r == spec_pages(self@),
    {
        let limit = self.selected_limit();
        total_pages_for(self.total_hits, limit)
    }

    /// The filter field owned by the focused pane. The focused pane must be
    /// a filter-dimension pane: the search, logs and context panes own none.
    pub fn active_filter_mut(&mut self) -> (f: &mut FilterField)
        requires
            is_filter_pane(old(self).focused),
        ensures
            (*f)@ == filter_of(old(self)@, old(self).focused),
            final(self)@ == with_filter(old(self)@, old(self).focused, (*final(f))@),
    {
        match self.focused {
            Pane::Profile => &mut self.profile_filter,
            Pane::Application => &mut self.app_filter,
            Pane::Severity => &mut self.severity_filter,
            Pane::TimeRange => &mut self.time_filter,
            Pane::Limit => &mut self.limit_filter,
            _ => &mut self.search_mode_filter,
        }
    }

    /// Reopen the field of pane `p` and move the focus there.
    fn focus_filter_pane(&mut self, p: Pane)
        requires
            old(self).wf(),
            is_filter_pane(p),
        ensures
            final(self)@ == open_pane(old(self)@, p),
            final(self).wf(),
    {
        match p {
            Pane::Profile => self.profile_filter.open(),
            Pane::Application => self.app_filter.open(),
            Pane::Severity => self.severity_filter.open(),
            Pane::TimeRange => self.time_filter.open(),
            Pane::Limit => self.limit_filter.open(),
            _ => self.search_mode_filter.open(),
        }
        self.focused = p;
    }

    /// Route one keystroke to the focused pane and report the backend
    /// action, if any, that the caller must now perform.
    pub fn handle_key(&mut self, key: Key) -> (r: Action)
        requires
            old(self).wf(),
        ensures
            final(self).wf(),
            final(self)@ == spec_step(old(self)@, key).0,
            r@ == spec_step(old(self)@, key).1,
    {
        match self.focused {
            Pane::Logs => self.handle_key_logs(key),
            Pane::Search => self.handle_key_search(key),
            Pane::LogContext => self.handle_key_context(key),
            _ => self.handle_key_filter(key),
        }
    }

    /// Keystroke handling while the logs pane is focused.
    pub fn handle_key_logs(&mut self, key: Key) -> (r: Action)
        requires
            old(self).wf(),
            old(self).focused == Pane::Logs,
        ensures
            final(self).wf(),
            final(self)@ == step_logs(old(self)@, key).0,
            r@ == step_logs(old(self)@, key).1,
    {
        match key {
            Key::Char(c) => {
                if c == 'q' {
                    Action::Quit
                } else if c == 'P' {
                    self.focus_filter_pane(Pane::Profile);
                    Action::Nothing
                } else if c == 'A' {
                    self.focus_filter_pane(Pane::Application);
                    Action::Nothing
                } else if c == 'S' {
                    self.focus_filter_pane(Pane::Severity);
                    Action::Nothing
                } else if c == 'T' {
                    self.focus_filter_pane(Pane::TimeRange);
                    Action::Nothing
                } else if c == 'N' {
                    self.focus_filter_pane(Pane::Limit);
                    Action::Nothing
                } else if c == 'M' {
                    self.focus_filter_pane(Pane::SearchMode);
                    Action::Nothing
                } else if c == '/' {
                    self.focused = Pane::Search;
                    Action::Nothing
                } else if c == 'R' {
                    Action::Fetch(self.page)
                } else if c == 'j' {
                    self.scroll_down();
                    Action::Nothing
                } else if c == 'k' {
                    self.scroll_up();
                    Action::Nothing
                } else if c == 'l' {
                    self.next_page_request()
                } else if c == 'h' {
                    self.prev_page_request()
                } else {
                    Action::Nothing
                }
            },
            Key::Down => {
                self.scroll_down();
                Action::Nothing
            },
            Key::Up => {
                self.scroll_up();
                Action::Nothing
            },
            Key::Right => self.next_page_request(),
            Key::Left => self.prev_page_request(),
            Key::Enter => {
                if self.logs.len() > 0 {
                    self.context_cursor = 0;
                    self.focused = Pane::LogContext;
                }
                Action::Nothing
            },
            _ => Action::Nothing,
        }
    }

    /// Keystroke handling while a filter-dimension pane is focused.
    pub fn handle_key_filter(&mut self, key: Key) -> (r: Action)
        requires
            old(self).wf(),
            is_filter_pane(old(self).focused),
        ensures
            final(self).wf(),
            final(self)@ == step_filter(old(self)@, key).0,
            r@ == step_filter(old(self)@, key).1,
    {
        match key {
            Key::Char(c) => {
                if c == 'P' {
                    self.focus_filter_pane(Pane::Profile);
                    Action::Nothing
                } else if c == 'A' {
                    self.focus_filter_pane(Pane::Application);
                    Action::Nothing
                } else if c == 'S' {
                    self.focus_filter_pane(Pane::Severity);
                    Action::Nothing
                } else if c == 'T' {
                    self.focus_filter_pane(Pane::TimeRange);
                    Action::Nothing
                } else if c == 'N' {
                    self.focus_filter_pane(Pane::Limit);
                    Action::Nothing
                } else if c == 'M' {
                    self.focus_filter_pane(Pane::SearchMode);
                    Action::Nothing
                } else if c == '/' {
                    self.focused = Pane::Search;
                    Action::Nothing
                } else if c == 'L' {
                    self.focused = Pane::Logs;
                    Action::Nothing
                } else {
                    let f = self.active_filter_mut();
                    f.type_char(c);
                    Action::Nothing
                }
            },
            Key::Backspace => {
                let f = self.active_filter_mut();
                f.backspace();
                Action::Nothing
            },
            Key::Down => {
                let f = self.active_filter_mut();
                f.next();
                Action::Nothing
            },
            Key::Up => {
                let f = self.active_filter_mut();
                f.previous();
                Action::Nothing
            },
            Key::Enter => {
                let p = self.focused;
                let f = self.active_filter_mut();
                f.confirm();
                match p {
                    Pane::SearchMode => {
                        self.focused = Pane::Logs;
                        Action::Nothing
                    },
                    _ => Action::Fetch(1),
                }
            },
            Key::Esc => {
                self.focused = Pane::Logs;
                Action::Nothing
            },
            _ => Action::Nothing,
        }
    }

    /// Keystroke handling while the free-text search pane is focused.
    pub fn handle_key_search(&mut self, key: Key) -> (r: Action)
        requires
            old(self).wf(),
            old(self).focused == Pane::Search,
        ensures
            final(self).wf(),
            final(self)@ == step_search(old(self)@, key).0,
            r@ == step_search(old(self)@, key).1,
    {
        match key {
            Key::Char(c) => {
                push_char(&mut self.search_text, c);
                Action::Nothing
            },
            Key::Backspace => {
                pop_char(&mut self.search_text);
                Action::Nothing
            },
            Key::Enter => Action::Fetch(1),
            Key::Esc => {
                self.focused = Pane::Logs;
                Action::Nothing
            },
            _ => Action::Nothing,
        }
    }

    /// Keystroke handling while the log-context action menu is focused.
    pub fn handle_key_context(&mut self, key: Key) -> (r: Action)
        requires
            old(self).wf(),
            old(self).focused == Pane::LogContext,
        ensures
            final(self).wf(),
            final(self)@ == step_context(old(self)@, key).0,
            r@ == step_context(old(self)@, key).1,
    {
        match key {
            Key::Char(c) => {
                if c == 'j' {
                    self.context_menu_down();
                    Action::Nothing
                } else if c == 'k' {
                    self.context_menu_up();
                    Action::Nothing
                } else {
                    Action::Nothing
                }
            },
            Key::Down => {
                self.context_menu_down();
                Action::Nothing
            },
            Key::Up => {
                self.context_menu_up();
                Action::Nothing
            },
            Key::Enter => {
                let r = if self.log_index < self.logs.len() {
                    let entry = &self.logs[self.log_index];
                    let mut text = entry.message.clone();
                    if !entry.stacktrace.as_str().is_empty() {
                        push_char(&mut text, '\n');
                        text.append(entry.stacktrace.as_str());
                        proof {
                            assert(text@ =~= context_text(self@.logs[self@.log_index as int]));
                        }
                    }
                    if self.context_cursor == 0 {
                        Action::CopyText(text)
                    } else {
                        Action::EditText(text)
                    }
                } else {
                    Action::Nothing
                };
                self.focused = Pane::Logs;
                r
            },
            Key::Esc => {
                self.focused = Pane::Logs;
                Action::Nothing
            },
            _ => Action::Nothing,
        }
    }

    fn context_menu_down(&mut self)
        requires
            old(self).wf(),
        ensures
            final(self)@ == context_down_state(old(self)@),
            final(self).wf(),
    {
        if self.context_cursor + 1 < CONTEXT_MENU_LEN {
            self.context_cursor = self.context_cursor + 1;
        } else {
            self.context_cursor = CONTEXT_MENU_LEN - 1;
        }
    }

    fn context_menu_up(&mut self)
        requires
            old(self).wf(),
        ensures
            final(self)@ == context_up_state(old(self)@),
            final(self).wf(),
    {
        if self.context_cursor > 0 {
            self.context_cursor = self.context_cursor - 1;
        }
    }

    /// Move the log selection down one record, saturating at the end.
    pub fn scroll_down(&mut self)
        requires
            old(self).wf(),
        ensures
            final(self)@ == scroll_down_state(old(self)@),
            final(self).wf(),
    {
        if self.logs.len() > 0 {
            if self.log_index + 1 < self.logs.len() {
                self.log_index = self.log_index + 1;
            } else {
                self.log_index = self.logs.len() - 1;
            }
        }
    }

    /// Move the log selection up one record, saturating at the start.
    pub fn scroll_up(&mut self)
        requires
            old(self).wf(),
        ensures
            final(self)@ == scroll_up_state(old(self)@),
            final(self).wf(),
    {
        if self.log_index > 0 {
            self.log_index = self.log_index - 1;
        }
    }

    /// The page to fetch on a page-forward request; none on the last page.
    pub fn next_page(&self) -> (r: Option<u64>)
        requires
            self.wf(),
        ensures
            r == (if self@.page < spec_pages(self@) {
                Some((self@.page + 1) as u64)
            } else {
                None::<u64>
            }),
    {
        let tp = self.total_pages();
        if self.page < tp {
            Some(self.page + 1)
        } else {
            None
        }
    }

    /// The page to fetch on a page-back request; none on the first page.
    pub fn prev_page(&self) -> (r: Option<u64>)
        requires
            self.wf(),
        ensures
            r == (if self@.page > 1 {
                Some((self@.page - 1) as u64)
            } else {
                None::<u64>
            }),
    {
        if self.page > 1 {
            Some(self.page - 1)
        } else {
            None
        }
    }

    fn next_page_request(&self) -> (r: Action)
        requires
            self.wf(),
        ensures
            r@ == next_page_action(self@),
    {
        match self.next_page() {
            Some(p) => Action::Fetch(p),
            None => Action::Nothing,
        }
    }

    fn prev_page_request(&self) -> (r: Action)
        requires
            self.wf(),
        ensures
            r@ == prev_page_action(self@),
    {
        match self.prev_page() {
            Some(p) => Action::Fetch(p),
            None => Action::Nothing,
        }
    }

    /// The human-readable label of the current filter combination, shown in
    /// status messages: `app (env)`, with ` [severity]` appended when one is
    /// committed.
    fn fetch_label(&self) -> (r: String)
        requires
            self.wf(),
            spec_selected_env(self@) is Some,
        ensures
            r@ == spec_label(self@),
    {
        let mut label = String::new();
        match self.selected_app() {
            Some(v) => label.append(v),
            None => label.append("ALL"),
        }
        label.append(" (");
        match self.selected_env() {
            Some(e) => label.append(e),
            None => {},
        }
        label.append(")");
        match self.selected_severity() {
            Some(s) => {
                label.append(" [");
                label.append(s);
                label.append("]");
            },
            None => {},
        }
        label
    }

    /// Start a fetch of the given page: build the backend parameters from
    /// the committed filter state and note the attempt in the status line.
    /// Without a committed environment no parameters are built, no state
    /// but the status line changes, and the caller must not call the
    /// backend.
    pub fn begin_fetch(&mut self, page: u64) -> (r: Option<QueryParams>)
        requires
            old(self).wf(),
            page >= 1,
            (page - 1) * spec_limit(old(self)@) <= u64::MAX,
        ensures
            final(self).wf(),
            r is Some <==> spec_selected_env(old(self)@) is Some,
            spec_selected_env(old(self)@) is None ==> final(self)@ == (AppView {
                status: "No environment selected"@,
                ..old(self)@
            }),
            spec_selected_env(old(self)@) is Some ==> final(self)@ == (AppView {
                status: "Fetching page "@ + dec_str(page as nat) + " from "@ + spec_label(
                    old(self)@,
                ) + "..."@,
                ..old(self)@
            }),
            match r {
                Some(q) => {
                    &&& Some(q.environment@) == spec_selected_env(old(self)@)
                    &&& q.application.deep_view() == spec_selected_app(old(self)@)
                    &&& q.severity.deep_view() == spec_selected_severity(old(self)@)
                    &&& q.time_range@ == spec_time_range(old(self)@)
                    &&& q.search.deep_view() == (if old(self)@.search_text.len() == 0 {
                        None::<Seq<char>>
                    } else {
                        Some(old(self)@.search_text)
                    })
                    &&& q.search_exact == spec_search_exact(old(self)@)
                    &&& q.size == spec_limit(old(self)@)
                    &&& q.from == (page - 1) * spec_limit(old(self)@)
                },
                None => true,
            },
    {
        let environment = match self.selected_env() {
            Some(e) => e.to_owned(),
            None => {
                self.status = "No environment selected".to_owned();
                return None;
            },
        };
        let application = match self.selected_app() {
            Some(v) => Some(v.to_owned()),
            None => None,
        };
        let severity = match self.selected_severity() {
            Some(v) => Some(v.to_owned()),
            None => None,
        };
        let time_range = self.selected_time_range().to_owned();
        let search = if self.search_text.as_str().is_empty() {
            None
        } else {
            Some(self.search_text.clone())
        };
        let search_exact = self.search_exact();
        let size = self.selected_limit() as u64;
        let from = (page - 1) * size;
        let label = self.fetch_label();
        let mut status = "Fetching page ".to_owned();
        status.append(u64_to_dec(page).as_str());
        status.append(" from ");
        status.append(label.as_str());
        status.append("...");
        self.status = status;
        Some(
            QueryParams {
                environment,
                application,
                severity,
                time_range,
                search,
                search_exact,
                from,
                size,
            },
        )
    }

    /// Land a successful fetch: the page buffer, hit count and page number
    /// are replaced, the selection resets, and the focus returns to the
    /// logs pane. Nothing of the committed filter state changes.
    pub fn apply_fetch_success(&mut self, page: u64, logs: Vec<LogEntry>, total: u64)
        requires
            old(self).wf(),
            page >= 1,
            spec_selected_env(old(self)@) is Some,
        ensures
            final(self).wf(),
            final(self)@ == (AppView {
                focused: Pane::Logs,
                logs: logs@,
                log_index: 0usize,
                total_hits: total,
                page,
                status: "Loaded "@ + dec_str(logs@.len()) + " logs from "@ + spec_label(
                    old(self)@,
                ),
                ..old(self)@
            }),
    {
        let label = self.fetch_label();
        let mut status = "Loaded ".to_owned();
        status.append(u64_to_dec(logs.len() as u64).as_str());
        status.append(" logs from ");
        status.append(label.as_str());
        self.status = status;
        self.total_hits = total;
        self.page = page;
        self.logs = logs;
        self.log_index = 0;
        self.focused = Pane::Logs;
    }

    /// Land a failed fetch: every prior value — the page buffer, the hit
    /// count, the page number, every filter and the focus — stays exactly
    /// as it was; only the status line reports the error.
    pub fn apply_fetch_error(&mut self, message: &str)
        requires
            old(self).wf(),
        ensures
            final(self).wf(),
            final(self)@ == (AppView { status: "Error: "@ + message@, ..old(self)@ }),
    {
        let mut status = "Error: ".to_owned();
        status.append(message);
        self.status = status;
    }

    /// Populate the filter dimensions from the backend's facet lists: the
    /// placeholder environment value is dropped and `production` committed
    /// when present; the "ALL" sentinel heads the application and severity
    /// lists (with the placeholder application value dropped); the time
    /// ranges and page sizes get their fixed candidate lists with `5m` and
    /// `50` committed when present.
    pub fn apply_available_filters(&mut self, filters: AvailableFilters)
        requires
            old(self).wf(),
        ensures
            final(self).wf(),
            final(self)@ == (AppView {
                profile: old(self)@.profile.set_items(
                    remove_value(filters.environments.deep_view(), "ACTIVE_PROFILE_IS_UNDEFINED"@),
                ).select_value("production"@),
                application: old(self)@.application.set_items(
                    seq!["ALL"@] + remove_value(
                        filters.applications.deep_view(),
                        "APPLICATION_NAME_IS_UNDEFINED"@,
                    ),
                ),
                severity: old(self)@.severity.set_items(
                    seq!["ALL"@] + filters.severities.deep_view(),
                ),
                time: old(self)@.time.set_items(time_tokens()).select_value("5m"@),
                limit: old(self)@.limit.set_items(limit_tokens()).select_value("50"@),
                status: dec_str(filters.environments.deep_view().len()) + " environments, "@
                    + dec_str(filters.applications.deep_view().len())
                    + " applications - select filters and press Enter"@,
                ..old(self)@
            }),
    {
        let AvailableFilters { environments, applications, severities } = filters;
        let mut status = u64_to_dec(environments.len() as u64);
        status.append(" environments, ");
        status.append(u64_to_dec(applications.len() as u64).as_str());
        status.append(" applications - select filters and press Enter");
        self.status = status;

        let envs = retain_without(environments, "ACTIVE_PROFILE_IS_UNDEFINED");
        self.profile_filter.set_items(envs);
        self.profile_filter.select_value("production");

        let mut apps: Vec<String> = Vec::new();
        apps.push("ALL".to_owned());
        let ghost apps_head = apps.deep_view();
        let filtered_apps = retain_without(applications, "APPLICATION_NAME_IS_UNDEFINED");
        let mut k: usize = 0;
        let napps = filtered_apps.len();
        while k < napps
            invariant
                napps == filtered_apps.len(),
                k <= napps,
                apps_head =~= seq!["ALL"@],
                apps.deep_view() == apps_head + filtered_apps.deep_view().take(k as int),
            decreases napps - k,
        {
            let ghost pre = apps.deep_view();
            apps.push(filtered_apps[k].clone());
            proof {
                assert(apps.deep_view() =~= pre.push(filtered_apps.deep_view()[k as int])) by {
                    assert(forall|j: int|
                        0 <= j < apps.deep_view().len() ==> apps.deep_view()[j] == apps@[j]@);
                }
                assert(pre.push(filtered_apps.deep_view()[k as int]) =~= apps_head
                    + filtered_apps.deep_view().take(k as int + 1));
            }
            k += 1;
        }
        proof {
            assert(filtered_apps.deep_view().take(napps as int) =~= filtered_apps.deep_view());
        }
        self.app_filter.set_items(apps);

        let mut sevs: Vec<String> = Vec::new();
        sevs.push("ALL".to_owned());
        let ghost sevs_head = sevs.deep_view();
        let nsevs = severities.len();
        let mut k2: usize = 0;
        while k2 < nsevs
            invariant
                nsevs == severities.len(),
                k2 <= nsevs,
                sevs_head =~= seq!["ALL"@],
                sevs.deep_view() == sevs_head + severities.deep_view().take(k2 as int),
            decreases nsevs - k2,
        {
            let ghost pre = sevs.deep_view();
            sevs.push(severities[k2].clone());
            proof {
                assert(sevs.deep_view() =~= pre.push(severities.deep_view()[k2 as int])) by {
                    assert(forall|j: int|
                        0 <= j < sevs.deep_view().len() ==> sevs.deep_view()[j] == sevs@[j]@);
                }
                assert(pre.push(severities.deep_view()[k2 as int]) =~= sevs_head
                    + severities.deep_view().take(k2 as int + 1));
            }
            k2 += 1;
        }
        proof {
            assert(severities.deep_view().take(nsevs as int) =~= severities.deep_view());
        }
        self.severity_filter.set_items(sevs);

        let mut ranges: Vec<String> = Vec::new();
        ranges.push("1m".to_owned());
        ranges.push("5m".to_owned());
        ranges.push("15m".to_owned());
        ranges.push("30m".to_owned());
        ranges.push("1h".to_owned());
        ranges.push("3h".to_owned());
        ranges.push("6h".to_owned());
        ranges.push("12h".to_owned());
        ranges.push("24h".to_owned());
        ranges.push("3d".to_owned());
        ranges.push("7d".to_owned());
        proof {
            assert(ranges.deep_view() =~= time_tokens());
        }
        self.time_filter.set_items(ranges);
        self.time_filter.select_value("5m");

        let mut limits: Vec<String> = Vec::new();
        limits.push("50".to_owned());
        limits.push("100".to_owned());
        limits.push("200".to_owned());
        limits.push("500".to_owned());
        limits.push("1000".to_owned());
        proof {
            assert(limits.deep_view() =~= limit_tokens());
        }
        self.limit_filter.set_items(limits);
        self.limit_filter.select_value("50");
    }

    /// Note a failed facet load in the status line; nothing else changes.
    pub fn apply_filters_error(&mut self, message: &str)
        requires
            old(self).wf(),
        ensures
            final(self).wf(),
            final(self)@ == (AppView { status: "Error loading filters: "@ + message@, ..old(self)@ }),
    {
        let mut status = "Error loading filters: ".to_owned();
        status.append(message);
        self.status = status;
    }
}

/// `s` without every occurrence of `v`, in the original order.
pub open spec fn remove_value(s: Seq<Seq<char>>, v: Seq<char>) -> Seq<Seq<char>>
    decreases s.len(),
{
    if s.len() == 0 {
        Seq::empty()
    } else if s.last() == v {
        remove_value(s.drop_last(), v)
    } else {
        remove_value(s.drop_last(), v).push(s.last())
    }
}

/// The fixed candidate list of time-range tokens.
pub open spec fn time_tokens() -> Seq<Seq<char>> {
    seq!["1m"@, "5m"@, "15m"@, "30m"@, "1h"@, "3h"@, "6h"@, "12h"@, "24h"@, "3d"@, "7d"@]
}

/// The fixed candidate list of page sizes.
pub open spec fn limit_tokens() -> Seq<Seq<char>> {
    seq!["50"@, "100"@, "200"@, "500"@, "1000"@]
}

/// A copy of `items` without every string equal to `unwanted`.
fn retain_without(items: Vec<String>, unwanted: &str) -> (r: Vec<String>)
    ensures
        r.deep_view() == remove_value(items.deep_view(), unwanted@),
{
    let mut r: Vec<String> = Vec::new();
    let n = items.len();
    let mut i: usize = 0;
    while i < n
        invariant
            n == items.len(),
            i <= n,
            r.deep_view() == remove_value(items.deep_view().take(i as int), unwanted@),
        decreases n - i,
    {
        proof {
            let pre = items.deep_view().take(i as int);
            let cur = items.deep_view().take(i as int + 1);
            assert(cur.drop_last() =~= pre);
            assert(cur.last() == items.deep_view()[i as int]);
        }
        if !str_eq(items[i].as_str(), unwanted) {
            r.push(items[i].clone());
            proof {
                assert(r.deep_view() =~= remove_value(
                    items.deep_view().take(i as int + 1),
                    unwanted@,
                ));
            }
        }
        i += 1;
    }
    proof {
        assert(items.deep_view().take(n as int) =~= items.deep_view());
    }
    r
}

} // verus!

//! The session: the one state object of the dashboard and the operations
//! that change it.
//!
//! An operation never touches the network. One that needs a fetch marks the
//! load as started and returns the [`Effect`] that the caller has to
//! perform; the caller hands the outcome back through
//! [`AppState::configs_loaded`] or [`AppState::logs_loaded`]. Between the two
//! calls the session shows the load as in flight, and starts no second one.
//!
//! Contracts are stated over [`SessionView`], the session as plain
//! mathematical values, and over the transition functions defined on it.

use crate::json::{config_text, count_lines, max_offset, max_offset_of, render_config};
use crate::logs::{append_log_line, appended_line, merge_logs, merged_logs, text_of};
use crate::page::AppPage;
use crate::text::lines_of;
use vstd::prelude::*;
use vstd::string::StringExecFns;

verus! {

/// What the caller has to do after an operation.
#[derive(Debug, Clone, Copy, PartialEq, Eq, Structural)]
pub enum Effect {
    /// Nothing: draw the next frame.
    Idle,
    /// Fetch the configuration and hand the outcome to `configs_loaded`.
    FetchConfigs,
    /// Fetch the log stream, read it to its end and hand the outcome to
    /// `logs_loaded`.
    FetchLogs,
    /// End the session.
    Quit,
}

/// The two ways in which a request to the control endpoint fails.
#[derive(Debug, Clone, Copy, PartialEq, Eq, Structural)]
pub enum FetchErrorKind {
    /// The endpoint could not be reached, or did not answer in time.
    Transport,
    /// The endpoint answered with an error status or a body that cannot be
    /// read.
    Protocol,
}

/// A failed request: its kind and, where one is known, the cause in words.
#[derive(Debug)]
pub struct FetchError {
    pub kind: FetchErrorKind,
    pub cause: Option<String>,
}

/// Where the fetch of the log stream failed.
#[derive(Debug)]
pub enum LogFailure {
    /// The request for the stream failed.
    Request(FetchError),
    /// The stream was opened and reading it failed.
    Read(FetchError),
}

impl FetchError {
    /// The error in words: the cause where there is one, else the name of
    /// the kind.
    pub open spec fn spec_message(self) -> Seq<char> {
        match self.cause {
            Some(cause) => cause@,
            None => match self.kind {
                FetchErrorKind::Transport => "transport error"@,
                FetchErrorKind::Protocol => "protocol error"@,
            },
        }
    }

    /// The error in words.
    pub fn message(&self) -> (m: String)
        ensures
            m@ == self.spec_message(),
    {
        match &self.cause {
            Some(cause) => cause.clone(),
            None => match self.kind {
                FetchErrorKind::Transport => String::from_str("transport error"),
                FetchErrorKind::Protocol => String::from_str("protocol error"),
            },
        }
    }
}

impl LogFailure {
    /// The line that the failure leaves in the scrollback buffer.
    pub open spec fn spec_line(self) -> Seq<char> {
        match self {
            LogFailure::Request(e) => "Failed to load logs: "@ + e.spec_message(),
            LogFailure::Read(e) => "Error reading logs: "@ + e.spec_message(),
        }
    }

    /// The line that the failure leaves in the scrollback buffer.
    pub fn line(&self) -> (l: String)
        ensures
            l@ == self.spec_line(),
    {
        match self {
            LogFailure::Request(e) => with_prefix("Failed to load logs: ", &e.message()),
            LogFailure::Read(e) => with_prefix("Error reading logs: ", &e.message()),
        }
    }
}

/// The message shown for a failed configuration load.
pub open spec fn config_error_text(e: FetchError) -> Seq<char> {
    "Failed to load configs: "@ + e.spec_message()
}

/// `prefix` followed by `rest`.
fn with_prefix(prefix: &str, rest: &String) -> (s: String)
    ensures
        s@ == prefix@ + rest@,
{
    let mut s = String::from_str(prefix);
    s.append(rest.as_str());
    s
}

/// The scrollbar: the largest offset that still shows a line of the
/// content, and the position drawn, which never passes it.
#[derive(Debug, Clone, Copy, PartialEq, Eq, Structural)]
pub struct ScrollState {
    pub max_offset: usize,
    pub position: usize,
}

impl ScrollState {
    /// The position does not pass the bound.
    pub open spec fn wf(self) -> bool {
        self.position <= self.max_offset
    }

    /// The scrollbar with its position at `offset`, held back at the bound.
    pub open spec fn spec_follow(self, offset: u16) -> ScrollState {
        ScrollState {
            max_offset: self.max_offset,
            position: if offset <= self.max_offset {
                offset as usize
            } else {
                self.max_offset
            },
        }
    }

    /// A scrollbar for content whose last line is at `max_offset`, at
    /// position zero.
    pub fn new(max_offset: usize) -> (s: ScrollState)
        ensures
            s == (ScrollState { max_offset, position: 0 }),
            s.wf(),
    {
        ScrollState { max_offset, position: 0 }
    }

    /// Moves the position to `offset`, or to the bound where `offset` lies
    /// beyond it. The bound stays.
    pub fn follow(self, offset: u16) -> (s: ScrollState)
        ensures
            s == self.spec_follow(offset),
            s.wf(),
    {
        let wanted = offset as usize;
        ScrollState {
            max_offset: self.max_offset,
            position: if wanted <= self.max_offset {
                wanted
            } else {
                self.max_offset
            },
        }
    }
}

/// The state of one interactive session.
pub struct AppState {
    /// The page shown.
    pub current_page: AppPage,
    /// The configuration last fetched with success; none before the first.
    pub configs: Option<serde_json::Value>,
    /// Whether a configuration load is in flight.
    pub loading: bool,
    /// What the last configuration load failed with, if it failed.
    pub error: Option<String>,
    /// The line from which the content is shown.
    pub scroll_offset: u16,
    /// The scrollbar that goes with the offset.
    pub scroll_state: ScrollState,
    /// The text of the output region.
    pub stdout_output: String,
    /// The scrollback buffer of the log page; none before the first load.
    pub logs: Option<String>,
    /// Whether a log load is in flight.
    pub logs_loading: bool,
}

/// A session as mathematical values: texts are sequences of characters.
pub struct SessionView {
    pub current_page: AppPage,
    pub configs: Option<serde_json::Value>,
    pub loading: bool,
    pub error: Option<Seq<char>>,
    pub scroll_offset: u16,
    pub scroll_state: ScrollState,
    pub stdout_output: Seq<char>,
    pub logs: Option<Seq<char>>,
    pub logs_loading: bool,
}

impl View for AppState {
    type V = SessionView;

    open spec fn view(&self) -> SessionView {
        SessionView {
            current_page: self.current_page,
            configs: self.configs,
            loading: self.loading,
            error: text_of(self.error),
            scroll_offset: self.scroll_offset,
            scroll_state: self.scroll_state,
            stdout_output: self.stdout_output@,
            logs: text_of(self.logs),
            logs_loading: self.logs_loading,
        }
    }
}

impl SessionView {
    /// The session at startup: the Proxy page, nothing loaded, nothing in
    /// flight, no error, scrolled to the top.
    pub open spec fn initial() -> SessionView {
        SessionView {
            current_page: AppPage::Proxy,
            configs: None,
            loading: false,
            error: None,
            scroll_offset: 0,
            scroll_state: ScrollState { max_offset: 0, position: 0 },
            stdout_output: Seq::empty(),
            logs: None,
            logs_loading: false,
        }
    }

    /// The scrollbar position does not pass its bound.
    pub open spec fn wf(self) -> bool {
        self.scroll_state.wf()
    }

    /// Whether moving to `page` starts a configuration load: only on the
    /// Config page, only while no configuration is held and no load is in
    /// flight.
    pub open spec fn enters_with_load(self, page: AppPage) -> bool {
        page == AppPage::Config && self.configs is None && !self.loading
    }

    /// A configuration load has started: it is in flight, and the error of
    /// an earlier load is gone.
    pub open spec fn load_started(self) -> SessionView {
        SessionView { loading: true, error: None, ..self }
    }

    /// The outcome of a configuration fetch has come in. A document replaces
    /// the one held, and the scrollbar is made anew for its text. A failure
    /// leaves the document held as it is and sets the error. Either way no
    /// load is in flight any more.
    pub open spec fn configs_arrived(
        self,
        fetched: Result<serde_json::Value, FetchError>,
    ) -> SessionView {
        match fetched {
            Ok(doc) => SessionView {
                configs: Some(doc),
                scroll_state: ScrollState {
                    max_offset: max_offset_of(config_text(doc)) as usize,
                    position: 0,
                },
                loading: false,
                ..self
            },
            Err(e) => SessionView { error: Some(config_error_text(e)), loading: false, ..self },
        }
    }

    /// The session after a move to `page`, with a configuration load
    /// started where the move calls for one.
    pub open spec fn moved_to(self, page: AppPage) -> SessionView {
        let there = SessionView { current_page: page, ..self };
        if self.enters_with_load(page) {
            there.load_started()
        } else {
            there
        }
    }

    /// What the caller has to do after a move to `page`.
    pub open spec fn move_effect(self, page: AppPage) -> Effect {
        if self.enters_with_load(page) {
            Effect::FetchConfigs
        } else {
            Effect::Idle
        }
    }

    /// A reload has been asked for: the configuration held is dropped and a
    /// load has started.
    pub open spec fn reload_requested(self) -> SessionView {
        SessionView { configs: None, ..self }.load_started()
    }

    /// A log load has started.
    pub open spec fn logs_started(self) -> SessionView {
        SessionView { logs_loading: true, ..self }
    }

    /// The outcome of a log fetch has come in. A payload is merged into the
    /// scrollback buffer; a failure leaves one line behind what the buffer
    /// holds. Either way no log load is in flight any more.
    pub open spec fn logs_arrived(self, fetched: Result<String, LogFailure>) -> SessionView {
        match fetched {
            Ok(payload) => SessionView {
                logs: Some(merged_logs(self.logs, payload@)),
                logs_loading: false,
                ..self
            },
            Err(failure) => SessionView {
                logs: Some(appended_line(self.logs, failure.spec_line())),
                logs_loading: false,
                ..self
            },
        }
    }

    /// The number of lines of the configuration's text, modulo 65536.
    pub open spec fn spec_total_lines(self) -> int {
        match self.configs {
            Some(doc) => lines_of(config_text(doc)).len() as int % 0x1_0000,
            None => 0,
        }
    }

    /// One line further down: the offset grows by one and stops at the
    /// largest `u16`; the scrollbar follows it as far as its bound.
    pub open spec fn scrolled_down(self) -> SessionView {
        let offset: u16 = if self.scroll_offset < u16::MAX {
            (self.scroll_offset + 1) as u16
        } else {
            u16::MAX
        };
        SessionView {
            scroll_offset: offset,
            scroll_state: self.scroll_state.spec_follow(offset),
            ..self
        }
    }

    /// One line further up: the offset shrinks by one and stops at zero; the
    /// scrollbar follows it as far as its bound.
    pub open spec fn scrolled_up(self) -> SessionView {
        let offset: u16 = if self.scroll_offset > 0 {
            (self.scroll_offset - 1) as u16
        } else {
            0
        };
        SessionView {
            scroll_offset: offset,
            scroll_state: self.scroll_state.spec_follow(offset),
            ..self
        }
    }
}

impl AppState {
    /// The session at startup.
    pub fn new() -> (app: AppState)
        ensures
            app@ == SessionView::initial(),
            app@.wf(),
    {
        AppState {
            current_page: AppPage::Proxy,
            configs: None,
            loading: false,
            error: None,
            scroll_offset: 0,
            scroll_state: ScrollState::new(0),
            stdout_output: String::new(),
            logs: None,
            logs_loading: false,
        }
    }

    /// Replaces the text of the output region.
    pub fn update_stdout(&mut self, output: String)
        ensures
            final(self)@ == (SessionView { stdout_output: output@, ..old(self)@ }),
    {
        self.stdout_output = output;
    }

    /// Empties the output region.
    pub fn clear_stdout(&mut self)
        ensures
            final(self)@ == (SessionView { stdout_output: Seq::empty(), ..old(self)@ }),
    {
        self.stdout_output = String::new();
    }

    /// Starts a configuration load: marks it as in flight and clears the
    /// error of an earlier load. The caller fetches the configuration and
    /// hands the outcome to `configs_loaded`.
    pub fn load_configs(&mut self) -> (effect: Effect)
        ensures
            final(self)@ == old(self)@.load_started(),
            effect == Effect::FetchConfigs,
    {
        self.loading = true;
        self.error = None;
        Effect::FetchConfigs
    }

    /// Ends a configuration load with the outcome of the fetch. On success
    /// the document is stored and the scrollbar is made anew, with its bound
    /// at the last line of the document's pretty-printed text. On failure
    /// the document held before stays and the error says what went wrong.
    /// After either the load is no longer in flight.
    pub fn configs_loaded(&mut self, fetched: Result<serde_json::Value, FetchError>)
        ensures
            final(self)@ == old(self)@.configs_arrived(fetched),
            old(self)@.wf() ==> final(self)@.wf(),
    {
        match fetched {
            Ok(doc) => {
                let text = render_config(&doc);
                self.scroll_state = ScrollState::new(max_offset(text.as_str()));
                self.configs = Some(doc);
            },
            Err(e) => {
                self.error = Some(with_prefix("Failed to load configs: ", &e.message()));
            },
        }
        self.loading = false;
    }

    /// Drops the configuration held and starts a load, whatever the state
    /// was.
    pub fn reload_request(&mut self) -> (effect: Effect)
        ensures
            final(self)@ == old(self)@.reload_requested(),
            effect == Effect::FetchConfigs,
    {
        self.configs = None;
        self.load_configs()
    }

    /// Starts a log load: marks it as in flight. The caller fetches the log
    /// stream, reads it to its end and hands the outcome to `logs_loaded`.
    pub fn load_logs(&mut self) -> (effect: Effect)
        ensures
            final(self)@ == old(self)@.logs_started(),
            effect == Effect::FetchLogs,
    {
        self.logs_loading = true;
        Effect::FetchLogs
    }

    /// Ends a log load with the outcome of the fetch. A payload is parsed
    /// and merged into the scrollback buffer, which keeps its newest lines.
    /// A failure is appended to the buffer as one more line; nothing that
    /// the buffer held is lost. After either the load is no longer in
    /// flight.
    pub fn logs_loaded(&mut self, fetched: Result<String, LogFailure>)
        ensures
            final(self)@ == old(self)@.logs_arrived(fetched),
    {
        match fetched {
            Ok(payload) => {
                self.logs = Some(merge_logs(&self.logs, payload.as_str()));
            },
            Err(failure) => {
                self.logs = Some(append_log_line(&self.logs, failure.line().as_str()));
            },
        }
        self.logs_loading = false;
    }

    /// The number of lines of the configuration's pretty-printed text, as
    /// far as a `u16` holds it: the count modulo 65536, and zero without a
    /// configuration.
    pub fn total_lines(&self) -> (n: u16)
        ensures
            n == self@.spec_total_lines(),
    {
        match &self.configs {
            Some(doc) => {
                let text = render_config(doc);
                (count_lines(text.as_str()) % 0x1_0000) as u16
            },
            None => 0,
        }
    }

    /// Scrolling of the log page by itself: not provided, the session stays
    /// as it is.
    pub fn scroll_logs_up(&mut self)
        ensures
            *final(self) == *old(self),
    {
    }

    /// Scrolling of the log page by itself: not provided, the session stays
    /// as it is.
    pub fn scroll_logs_down(&mut self)
        ensures
            *final(self) == *old(self),
    {
    }

    /// Moves to the page after the current one. Entering the Config page
    /// starts a configuration load if none is held and none is in flight;
    /// the effect says whether it did.
    pub fn next_page(&mut self) -> (effect: Effect)
        ensures
            final(self)@ == old(self)@.moved_to(old(self).current_page.spec_next()),
            effect == old(self)@.move_effect(old(self).current_page.spec_next()),
    {
        let page = self.current_page.next();
        self.enter(page)
    }

    /// Moves to the page before the current one. Entering the Config page
    /// starts a configuration load if none is held and none is in flight;
    /// the effect says whether it did.
    pub fn previous_page(&mut self) -> (effect: Effect)
        ensures
            final(self)@ == old(self)@.moved_to(old(self).current_page.spec_previous()),
            effect == old(self)@.move_effect(old(self).current_page.spec_previous()),
    {
        let page = self.current_page.previous();
        self.enter(page)
    }

    /// Makes `page` the current page, and starts a configuration load where
    /// entering it calls for one.
    fn enter(&mut self, page: AppPage) -> (effect: Effect)
        ensures
            final(self)@ == old(self)@.moved_to(page),
            effect == old(self)@.move_effect(page),
    {
        self.current_page = page;
        if page == AppPage::Config && self.configs.is_none() && !self.loading {
            self.load_configs()
        } else {
            Effect::Idle
        }
    }

    /// Scrolls one line down. The offset stops only at the largest `u16`;
    /// the scrollbar position follows it up to the scrollbar's bound.
    pub fn scroll_down(&mut self)
        ensures
            final(self)@ == old(self)@.scrolled_down(),
            final(self)@.wf(),
    {
        self.scroll_offset = if self.scroll_offset < u16::MAX {
            self.scroll_offset + 1
        } else {
            u16::MAX
        };
        self.scroll_state = self.scroll_state.follow(self.scroll_offset);
    }

    /// Scrolls one line up. The offset stops at zero; the scrollbar
    /// position follows it up to the scrollbar's bound.
    pub fn scroll_up(&mut self)
        ensures
            final(self)@ == old(self)@.scrolled_up(),
            final(self)@.wf(),
    {
        self.scroll_offset = if self.scroll_offset > 0 {
            self.scroll_offset - 1
        } else {
            0
        };
        self.scroll_state = self.scroll_state.follow(self.scroll_offset);
    }
}

/// The session after `n` steps of scrolling down.
pub open spec fn scrolled_down_by(s: SessionView, n: nat) -> SessionView
    decreases n,
{
    if n == 0 {
        s
    } else {
        scrolled_down_by(s, (n - 1) as nat).scrolled_down()
    }
}

/// Moving to the next page and then to the previous one, or the other way
/// round, ends on the page where it began.
pub proof fn lemma_there_and_back(s: SessionView)
    ensures
        s.moved_to(s.current_page.spec_next()).moved_to(
            s.current_page.spec_next().spec_previous(),
        ).current_page == s.current_page,
        s.moved_to(s.current_page.spec_previous()).moved_to(
            s.current_page.spec_previous().spec_next(),
        ).current_page == s.current_page,
{
}

/// Entering the Config page while no configuration is held and no load is
/// in flight starts one load: the effect is the fetch, the load is in flight
/// afterwards, and entering the page again before its outcome is in starts
/// no second one. Entering it while a configuration is held starts none and
/// changes nothing but the page.
pub proof fn lemma_config_page_loads_once(s: SessionView)
    ensures
        s.configs is None && !s.loading ==> {
            let entered = s.moved_to(AppPage::Config);
            &&& s.move_effect(AppPage::Config) == Effect::FetchConfigs
            &&& entered == (SessionView {
                current_page: AppPage::Config,
                loading: true,
                error: None,
                ..s
            })
            &&& entered.move_effect(AppPage::Config) == Effect::Idle
            &&& entered.moved_to(AppPage::Config) == entered
        },
        s.configs is Some ==> {
            &&& s.move_effect(AppPage::Config) == Effect::Idle
            &&& s.moved_to(AppPage::Config) == (SessionView { current_page: AppPage::Config, ..s })
        },
{
}

/// Entering a page other than Config never starts a load and changes
/// nothing but the page.
pub proof fn lemma_other_pages_load_nothing(s: SessionView, page: AppPage)
    requires
        page != AppPage::Config,
    ensures
        s.move_effect(page) == Effect::Idle,
        s.moved_to(page) == (SessionView { current_page: page, ..s }),
{
}

/// Scrolling up at offset zero leaves the offset at zero.
pub proof fn lemma_scroll_up_stops_at_zero(s: SessionView)
    requires
        s.scroll_offset == 0,
    ensures
        s.scrolled_up().scroll_offset == 0,
{
}

/// Scrolling down `n` times adds `n` to the offset, up to the largest
/// `u16`, whatever the scrollbar's bound is. From offset zero the offset is
/// `n`, for every `n` that a `u16` holds. Nothing but the offset and the
/// scrollbar position changes, and the position is the offset held back at
/// the bound.
pub proof fn lemma_scroll_down_counts(s: SessionView, n: nat)
    ensures
        scrolled_down_by(s, n).scroll_offset == if s.scroll_offset + n <= u16::MAX {
            s.scroll_offset + n
        } else {
            u16::MAX as int
        },
        s.scroll_offset == 0 && n <= u16::MAX ==> scrolled_down_by(s, n).scroll_offset == n,
        n > 0 ==> scrolled_down_by(s, n) == (SessionView {
            scroll_offset: scrolled_down_by(s, n).scroll_offset,
            scroll_state: s.scroll_state.spec_follow(scrolled_down_by(s, n).scroll_offset),
            ..s
        }),
    decreases n,
{
    if n > 0 {
        lemma_scroll_down_counts(s, (n - 1) as nat);
    }
}

/// Scrolling up undoes scrolling down, as long as the offset has not
/// reached the largest `u16`.
pub proof fn lemma_scroll_down_then_up(s: SessionView)
    requires
        s.scroll_offset < u16::MAX,
    ensures
        s.scrolled_down().scrolled_up().scroll_offset == s.scroll_offset,
{
}

/// A load that fails leaves the configuration held as it was, sets the
/// error to a message that is not empty, and is no longer in flight. A
/// load that succeeds after it clears the error and holds the new document.
pub proof fn lemma_failed_load_keeps_configs(
    s: SessionView,
    e: FetchError,
    doc: serde_json::Value,
)
    ensures
        ({
            let failed = s.load_started().configs_arrived(Err(e));
            let mended = failed.load_started().configs_arrived(Ok(doc));
            &&& failed.configs == s.configs
            &&& failed.error == Some(config_error_text(e))
            &&& failed.error->0.len() > 0
            &&& !failed.loading
            &&& mended.error is None
            &&& mended.configs == Some(doc)
            &&& !mended.loading
        }),
{
    reveal_strlit("Failed to load configs: ");
}

/// A load that succeeds replaces the configuration, whatever was held, and
/// leaves page, offset, output and logs alone.
pub proof fn lemma_load_replaces_configs(s: SessionView, doc: serde_json::Value)
    ensures
        s.load_started().configs_arrived(Ok(doc)) == (SessionView {
            configs: Some(doc),
            error: None,
            loading: false,
            scroll_state: ScrollState {
                max_offset: max_offset_of(config_text(doc)) as usize,
                position: 0,
            },
            ..s
        }),
{
}

/// A reload asks for one fetch with the configuration dropped before it,
/// whatever the session held: afterwards no configuration is held, the
/// load is in flight, no error is shown, and nothing else has changed.
pub proof fn lemma_reload_drops_configs(s: SessionView)
    ensures
        s.reload_requested() == (SessionView {
            configs: None,
            loading: true,
            error: None,
            ..s
        }),
{
}

/// A session whose scrollbar position is within its bound stays so under
/// every operation; scrolling puts it within the bound from any state.
pub proof fn lemma_operations_keep_scrollbar_in_bound(
    s: SessionView,
    page: AppPage,
    configs: Result<serde_json::Value, FetchError>,
    logs: Result<String, LogFailure>,
)
    ensures
        SessionView::initial().wf(),
        s.scrolled_down().wf(),
        s.scrolled_up().wf(),
        s.wf() ==> {
            &&& s.load_started().wf()
            &&& s.configs_arrived(configs).wf()
            &&& s.moved_to(page).wf()
            &&& s.reload_requested().wf()
            &&& s.logs_started().wf()
            &&& s.logs_arrived(logs).wf()
        },
{
}

} // verus!

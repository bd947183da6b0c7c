//! The tray application as a state machine. Its host (the tray service)
//! hands it events (a menu choice, a dialog's answer, a clock reading, the
//! outcome of a request) and performs the action it returns, until an action
//! ends the flow.
use vstd::prelude::*;
use crate::config::{Config, ConfigView};
use crate::dialogs::{
    prompt_secret, prompt_text, secret_prompt, text_prompt, EntryPrompt, EntryPromptView,
};
use crate::icons::{idle_icon, idle_picture, running_icon, running_picture, Icon};
use crate::jira::{
    myself_url, token_check, worklog_request, worklog_request_view, TokenCheck, TokenCheckView,
    WorklogRequest, WorklogRequestView,
};
use crate::text::{
    decimal, is_blank, lemma_trimmed_empty_iff_blank, push_decimal, strip_trailing, trim,
    trim_end_char, trimmed,
};

verus! {

/// Whether a timer runs.
pub enum State {
    Idle,
    Running {
        /// The Jira issue the time is booked on.
        issue_key: String,
        /// Local wall-clock time at the start, as
        /// `%Y-%m-%dT%H:%M:%S%.3f%z`.
        started_at: String,
        /// Reading of the host's monotonic clock at the start, in
        /// nanoseconds.
        started_ns: u64,
    },
}

/// The timer state as text.
#[verifier::ext_equal]
pub enum StateView {
    Idle,
    Running { issue_key: Seq<char>, started_at: Seq<char>, started_ns: u64 },
}

impl View for State {
    type V = StateView;

    open spec fn view(&self) -> StateView {
        match self {
            State::Idle => StateView::Idle,
            State::Running { issue_key, started_at, started_ns } => StateView::Running {
                issue_key: issue_key@,
                started_at: started_at@,
                started_ns: *started_ns,
            },
        }
    }
}

/// The entries of the tray menu.
#[derive(Clone, Copy, PartialEq, Eq, Structural, Debug)]
pub enum MenuAction {
    StartTimer,
    StopTimer,
    Settings,
    Exit,
}

/// What the host reports.
pub enum Event {
    /// A menu entry was activated.
    Menu(MenuAction),
    /// An entry dialog closed: its text, or `None` when it was cancelled.
    Answer(Option<String>),
    /// The clocks were read: local wall-clock time as
    /// `%Y-%m-%dT%H:%M:%S%.3f%z`, and the monotonic clock in nanoseconds.
    Clock { local_time: String, monotonic_ns: u64 },
    /// A worklog was created, or why not.
    WorklogSent(Result<(), String>),
    /// The URL and token were confirmed, with the user's display name, or
    /// why not.
    TokenChecked(Result<String, String>),
    /// The settings were stored, or why not.
    Saved(Result<(), String>),
}

/// An event as text.
#[verifier::ext_equal]
pub enum EventView {
    Menu(MenuAction),
    Answer(Option<Seq<char>>),
    Clock { local_time: Seq<char>, monotonic_ns: u64 },
    WorklogSent(Result<(), Seq<char>>),
    TokenChecked(Result<Seq<char>, Seq<char>>),
    Saved(Result<(), Seq<char>>),
}

impl View for Event {
    type V = EventView;

    open spec fn view(&self) -> EventView {
        match self {
            Event::Menu(m) => EventView::Menu(*m),
            Event::Answer(a) => EventView::Answer(
                match a {
                    Some(s) => Some(s@),
                    None => None,
                },
            ),
            Event::Clock { local_time, monotonic_ns } => EventView::Clock {
                local_time: local_time@,
                monotonic_ns: *monotonic_ns,
            },
            Event::WorklogSent(r) => EventView::WorklogSent(
                match r {
                    Ok(()) => Ok(()),
                    Err(e) => Err(e@),
                },
            ),
            Event::TokenChecked(r) => EventView::TokenChecked(
                match r {
                    Ok(n) => Ok(n@),
                    Err(e) => Err(e@),
                },
            ),
            Event::Saved(r) => EventView::Saved(
                match r {
                    Ok(()) => Ok(()),
                    Err(e) => Err(e@),
                },
            ),
        }
    }
}

/// What the application waits for.
pub enum Pending {
    /// No flow runs.
    Nothing,
    /// The issue key of a new timer.
    IssueKey,
    /// The clocks, to start a timer on the issue.
    StartClock { issue_key: String },
    /// The clocks, to stop the running timer.
    StopClock { issue_key: String, started_at: String, started_ns: u64 },
    /// The description of the work done; `stopped_ns` is the monotonic
    /// clock when the timer was stopped.
    Description { issue_key: String, started_at: String, started_ns: u64, stopped_ns: u64 },
    /// The outcome of creating the worklog.
    Worklog { issue_key: String, elapsed_seconds: u64, comment: String },
    /// The Jira base URL.
    BaseUrl,
    /// The API token; `url` is the URL as entered.
    Token { url: String },
    /// The outcome of checking the new URL and token.
    Verification { url: String, token: String },
    /// The outcome of storing the settings.
    Saving { display_name: String },
}

/// What the application waits for, as text.
#[verifier::ext_equal]
pub enum PendingView {
    Nothing,
    IssueKey,
    StartClock { issue_key: Seq<char> },
    StopClock { issue_key: Seq<char>, started_at: Seq<char>, started_ns: u64 },
    Description { issue_key: Seq<char>, started_at: Seq<char>, started_ns: u64, stopped_ns: u64 },
    Worklog { issue_key: Seq<char>, elapsed_seconds: u64, comment: Seq<char> },
    BaseUrl,
    Token { url: Seq<char> },
    Verification { url: Seq<char>, token: Seq<char> },
    Saving { display_name: Seq<char> },
}

impl View for Pending {
    type V = PendingView;

    open spec fn view(&self) -> PendingView {
        match self {
            Pending::Nothing => PendingView::Nothing,
            Pending::IssueKey => PendingView::IssueKey,
            Pending::StartClock { issue_key } => PendingView::StartClock { issue_key: issue_key@ },
            Pending::StopClock { issue_key, started_at, started_ns } => PendingView::StopClock {
                issue_key: issue_key@,
                started_at: started_at@,
                started_ns: *started_ns,
            },
            Pending::Description { issue_key, started_at, started_ns, stopped_ns } =>
                PendingView::Description {
                issue_key: issue_key@,
                started_at: started_at@,
                started_ns: *started_ns,
                stopped_ns: *stopped_ns,
            },
            Pending::Worklog { issue_key, elapsed_seconds, comment } => PendingView::Worklog {
                issue_key: issue_key@,
                elapsed_seconds: *elapsed_seconds,
                comment: comment@,
            },
            Pending::BaseUrl => PendingView::BaseUrl,
            Pending::Token { url } => PendingView::Token { url: url@ },
            Pending::Verification { url, token } => PendingView::Verification {
                url: url@,
                token: token@,
            },
            Pending::Saving { display_name } => PendingView::Saving {
                display_name: display_name@,
            },
        }
    }
}

/// What the host is to do next.
pub enum Action {
    /// The flow is over.
    Done,
    /// Leave the application.
    Quit,
    /// Show an error dialog; the flow is over.
    ShowError { title: String, text: String },
    /// Show a desktop notification; the flow is over.
    Notify { summary: String, body: String },
    /// Show an entry dialog and report its answer.
    Prompt(EntryPrompt),
    /// Read the clocks and report them.
    ReadClock,
    /// Create the worklog and report the outcome.
    AddWorklog(WorklogRequest),
    /// Check the URL and token and report the outcome.
    VerifyToken(TokenCheck),
    /// Store the settings and report the outcome.
    SaveConfig(Config),
}

/// An action as text.
#[verifier::ext_equal]
pub enum ActionView {
    Done,
    Quit,
    ShowError { title: Seq<char>, text: Seq<char> },
    Notify { summary: Seq<char>, body: Seq<char> },
    Prompt(EntryPromptView),
    ReadClock,
    AddWorklog(WorklogRequestView),
    VerifyToken(TokenCheckView),
    SaveConfig(ConfigView),
}

impl View for Action {
    type V = ActionView;

    open spec fn view(&self) -> ActionView {
        match self {
            Action::Done => ActionView::Done,
            Action::Quit => ActionView::Quit,
            Action::ShowError { title, text } => ActionView::ShowError {
                title: title@,
                text: text@,
            },
            Action::Notify { summary, body } => ActionView::Notify {
                summary: summary@,
                body: body@,
            },
            Action::Prompt(p) => ActionView::Prompt(p@),
            Action::ReadClock => ActionView::ReadClock,
            Action::AddWorklog(r) => ActionView::AddWorklog(r@),
            Action::VerifyToken(c) => ActionView::VerifyToken(c@),
            Action::SaveConfig(c) => ActionView::SaveConfig(c@),
        }
    }
}

impl ActionView {
    /// The action ends the flow: the host reports nothing back.
    pub open spec fn ends_flow(self) -> bool {
        ||| self is Done
        ||| self is Quit
        ||| self is ShowError
        ||| self is Notify
    }
}

/// The tray application: its settings, its timer, and the flow in progress.
pub struct AppTray {
    config: Config,
    state: State,
    pending: Pending,
}

/// The tray application as text.
#[verifier::ext_equal]
pub struct AppTrayView {
    pub config: ConfigView,
    pub state: StateView,
    pub pending: PendingView,
}

impl View for AppTray {
    type V = AppTrayView;

    closed spec fn view(&self) -> AppTrayView {
        AppTrayView { config: self.config@, state: self.state@, pending: self.pending@ }
    }
}

impl AppTrayView {
    /// The same application, waiting for `pending`.
    pub open spec fn awaiting(self, pending: PendingView) -> AppTrayView {
        AppTrayView { config: self.config, state: self.state, pending }
    }

    /// The same application, with no flow in progress.
    pub open spec fn at_rest(self) -> AppTrayView {
        self.awaiting(PendingView::Nothing)
    }

    /// A stop in progress belongs to the running timer.
    pub open spec fn well_formed(self) -> bool {
        match self.pending {
            PendingView::StopClock { issue_key, started_at, started_ns } => self.state
                == StateView::Running { issue_key, started_at, started_ns },
            PendingView::Description { issue_key, started_at, started_ns, .. } => self.state
                == StateView::Running { issue_key, started_at, started_ns },
            _ => true,
        }
    }
}

/// The application's name in dialogs and notifications.
pub open spec fn app_name() -> Seq<char> {
    "Tempo Shortcut"@
}

/// Whole seconds between two readings of the monotonic clock; none when the
/// clock went backwards.
pub open spec fn elapsed_between(started_ns: u64, now_ns: u64) -> u64 {
    if now_ns >= started_ns {
        ((now_ns - started_ns) / 1_000_000_000) as u64
    } else {
        0
    }
}

/// Elapsed seconds rounded to the nearest minute, halves rounding up.
pub open spec fn minutes_of(elapsed_seconds: nat) -> nat {
    (elapsed_seconds + 30) / 60
}

/// Label of the dialog that asks for the work log description.
pub open spec fn description_label(issue_key: Seq<char>) -> Seq<char> {
    "Work log description for "@ + issue_key + ":"@
}

/// Confirmation of a created worklog.
pub open spec fn logged_text(issue_key: Seq<char>, elapsed_seconds: nat) -> Seq<char> {
    "Logged "@ + decimal(minutes_of(elapsed_seconds)) + " min on "@ + issue_key
}

/// Report of a failed worklog: nothing of the description is lost.
pub open spec fn worklog_failed_text(
    issue_key: Seq<char>,
    elapsed_seconds: nat,
    error: Seq<char>,
    comment: Seq<char>,
) -> Seq<char> {
    "Could not log time on "@ + issue_key + " ("@ + decimal(elapsed_seconds) + "s elapsed):\n"@
        + error + "\n\nDescription: "@ + comment
}

/// The URL as stored: surrounding whitespace and trailing slashes dropped.
pub open spec fn normalized_url(url: Seq<char>) -> Seq<char> {
    strip_trailing(trimmed(url), '/')
}

/// The token as stored: a blank answer keeps the current one.
pub open spec fn chosen_token(current: Seq<char>, answer: Seq<char>) -> Seq<char> {
    if is_blank(answer) {
        current
    } else {
        trimmed(answer)
    }
}

/// What the application does with event `e` in state `t`: the new state and
/// the action for the host. An event that the current flow does not wait
/// for ends it with nothing else changed.
pub open spec fn next(t: AppTrayView, e: EventView) -> (AppTrayView, ActionView) {
    match t.pending {
        PendingView::Nothing => match e {
            EventView::Menu(MenuAction::StartTimer) => if t.config.configured() {
                (
                    t.awaiting(PendingView::IssueKey),
                    ActionView::Prompt(
                        text_prompt("Start Timer"@, "Jira issue key (e.g. RASA-123):"@, ""@),
                    ),
                )
            } else {
                (
                    t,
                    ActionView::ShowError {
                        title: app_name(),
                        text: "Set the Jira URL and API token first, using the Settings menu item."@,
                    },
                )
            },
            EventView::Menu(MenuAction::StopTimer) => match t.state {
                StateView::Running { issue_key, started_at, started_ns } => (
                    t.awaiting(PendingView::StopClock { issue_key, started_at, started_ns }),
                    ActionView::ReadClock,
                ),
                StateView::Idle => (t, ActionView::Done),
            },
            EventView::Menu(MenuAction::Settings) => (
                t.awaiting(PendingView::BaseUrl),
                ActionView::Prompt(
                    text_prompt(
                        "Jira Settings"@,
                        "Jira base URL (e.g. https://jira.arasdp.ir):"@,
                        t.config.jira_url,
                    ),
                ),
            ),
            EventView::Menu(MenuAction::Exit) => (t, ActionView::Quit),
            _ => (t, ActionView::Done),
        },
        PendingView::IssueKey => match e {
            EventView::Answer(Some(answer)) => if is_blank(answer) {
                (t.at_rest(), ActionView::Done)
            } else {
                (
                    t.awaiting(PendingView::StartClock { issue_key: trimmed(answer) }),
                    ActionView::ReadClock,
                )
            },
            _ => (t.at_rest(), ActionView::Done),
        },
        PendingView::StartClock { issue_key } => match e {
            EventView::Clock { local_time, monotonic_ns } => (
                AppTrayView {
                    config: t.config,
                    state: StateView::Running {
                        issue_key,
                        started_at: local_time,
                        started_ns: monotonic_ns,
                    },
                    pending: PendingView::Nothing,
                },
                ActionView::Done,
            ),
            _ => (t.at_rest(), ActionView::Done),
        },
        PendingView::StopClock { issue_key, started_at, started_ns } => match e {
            EventView::Clock { monotonic_ns, .. } => (
                t.awaiting(
                    PendingView::Description {
                        issue_key,
                        started_at,
                        started_ns,
                        stopped_ns: monotonic_ns,
                    },
                ),
                ActionView::Prompt(text_prompt("Stop Timer"@, description_label(issue_key), ""@)),
            ),
            _ => (t.at_rest(), ActionView::Done),
        },
        PendingView::Description { issue_key, started_at, started_ns, stopped_ns } => match e {
            EventView::Answer(Some(comment)) => {
                let elapsed_seconds = elapsed_between(started_ns, stopped_ns);
                (
                AppTrayView {
                    config: t.config,
                    state: StateView::Idle,
                    pending: PendingView::Worklog { issue_key, elapsed_seconds, comment },
                },
                ActionView::AddWorklog(
                    worklog_request_view(
                        t.config.jira_url,
                        t.config.api_token,
                        issue_key,
                        started_at,
                        elapsed_seconds as int,
                        comment,
                    ),
                ),
            )
            },
            _ => (t.at_rest(), ActionView::Done),
        },
        PendingView::Worklog { issue_key, elapsed_seconds, comment } => match e {
            EventView::WorklogSent(Ok(())) => (
                t.at_rest(),
                ActionView::Notify {
                    summary: app_name(),
                    body: logged_text(issue_key, elapsed_seconds as nat),
                },
            ),
            EventView::WorklogSent(Err(error)) => (
                t.at_rest(),
                ActionView::ShowError {
                    title: "Tempo Shortcut - worklog failed"@,
                    text: worklog_failed_text(issue_key, elapsed_seconds as nat, error, comment),
                },
            ),
            _ => (t.at_rest(), ActionView::Done),
        },
        PendingView::BaseUrl => match e {
            EventView::Answer(Some(url)) => (
                t.awaiting(PendingView::Token { url }),
                ActionView::Prompt(
                    secret_prompt(
                        "Jira Settings"@,
                        "Jira API token (leave blank to keep the current one):"@,
                    ),
                ),
            ),
            _ => (t.at_rest(), ActionView::Done),
        },
        PendingView::Token { url } => match e {
            EventView::Answer(Some(answer)) => {
                let new_url = normalized_url(url);
                let new_token = chosen_token(t.config.api_token, answer);
                (
                    t.awaiting(PendingView::Verification { url: new_url, token: new_token }),
                    ActionView::VerifyToken(
                        TokenCheckView { url: myself_url(new_url), api_token: new_token },
                    ),
                )
            },
            _ => (t.at_rest(), ActionView::Done),
        },
        PendingView::Verification { url, token } => match e {
            EventView::TokenChecked(Ok(display_name)) => (
                AppTrayView {
                    config: ConfigView { jira_url: url, api_token: token },
                    state: t.state,
                    pending: PendingView::Saving { display_name },
                },
                ActionView::SaveConfig(ConfigView { jira_url: url, api_token: token }),
            ),
            EventView::TokenChecked(Err(error)) => (
                t.at_rest(),
                ActionView::ShowError {
                    title: "Tempo Shortcut - Settings not saved"@,
                    text: "Could not verify the Jira URL/token, nothing was changed:\n"@ + error,
                },
            ),
            _ => (t.at_rest(), ActionView::Done),
        },
        PendingView::Saving { display_name } => match e {
            EventView::Saved(Ok(())) => (
                t.at_rest(),
                ActionView::Notify {
                    summary: app_name(),
                    body: "Settings saved. Signed in as "@ + display_name + "."@,
                },
            ),
            EventView::Saved(Err(error)) => (
                t.at_rest(),
                ActionView::ShowError {
                    title: app_name(),
                    text: "Verified but failed to save settings: "@ + error,
                },
            ),
            _ => (t.at_rest(), ActionView::Done),
        },
    }
}


impl AppTray {
    /// The application with the given settings, no timer and no flow.
    pub fn new(config: Config) -> (t: AppTray)
        ensures
            t@ == (AppTrayView {
                config: config@,
                state: StateView::Idle,
                pending: PendingView::Nothing,
            }),
    {
        AppTray { config, state: State::Idle, pending: Pending::Nothing }
    }

    /// Takes an event from the host and says what to do next.
    pub fn handle(&mut self, event: Event) -> (action: Action)
        ensures
            (final(self)@, action@) == next(old(self)@, event@),
    {
        let mut pending = Pending::Nothing;
        std::mem::swap(&mut pending, &mut self.pending);
        match pending {
            Pending::Nothing => self.when_at_rest(event),
            Pending::IssueKey => self.when_issue_key(event),
            Pending::StartClock { issue_key } => self.when_start_clock(issue_key, event),
            Pending::StopClock { issue_key, started_at, started_ns } => self.when_stop_clock(
                issue_key,
                started_at,
                started_ns,
                event,
            ),
            Pending::Description { issue_key, started_at, started_ns, stopped_ns } => self.when_described(
                issue_key,
                started_at,
                started_ns,
                stopped_ns,
                event,
            ),
            Pending::Worklog { issue_key, elapsed_seconds, comment } => self.when_logged(
                issue_key,
                elapsed_seconds,
                comment,
                event,
            ),
            Pending::BaseUrl => self.when_url_given(event),
            Pending::Token { url } => self.when_token_given(url, event),
            Pending::Verification { url, token } => self.when_verified(url, token, event),
            Pending::Saving { display_name } => self.when_saved(display_name, event),
        }
    }

    fn when_at_rest(&mut self, event: Event) -> (action: Action)
        requires
            old(self)@.pending is Nothing,
        ensures
            (final(self)@, action@) == next(old(self)@, event@),
    {
        match event {
            Event::Menu(MenuAction::StartTimer) => {
                if self.config.is_configured() {
                    self.pending = Pending::IssueKey;
                    Action::Prompt(prompt_text("Start Timer", "Jira issue key (e.g. RASA-123):", ""))
                } else {
                    Action::ShowError {
                        title: "Tempo Shortcut".to_owned(),
                        text: "Set the Jira URL and API token first, using the Settings menu item.".to_owned(),
                    }
                }
            },
            Event::Menu(MenuAction::StopTimer) => {
                match &self.state {
                    State::Running { issue_key, started_at, started_ns } => {
                        self.pending = Pending::StopClock {
                            issue_key: issue_key.clone(),
                            started_at: started_at.clone(),
                            started_ns: *started_ns,
                        };
                        Action::ReadClock
                    },
                    State::Idle => Action::Done,
                }
            },
            Event::Menu(MenuAction::Settings) => {
                let prompt = prompt_text(
                    "Jira Settings",
                    "Jira base URL (e.g. https://jira.arasdp.ir):",
                    self.config.jira_url.as_str(),
                );
                self.pending = Pending::BaseUrl;
                Action::Prompt(prompt)
            },
            Event::Menu(MenuAction::Exit) => Action::Quit,
            _ => Action::Done,
        }
    }

    fn when_issue_key(&mut self, event: Event) -> (action: Action)
        requires
            old(self)@.pending is Nothing,
        ensures
            (final(self)@, action@) == next(old(self)@.awaiting(PendingView::IssueKey), event@),
    {
        match event {
            Event::Answer(Some(answer)) => {
                proof {
                    lemma_trimmed_empty_iff_blank(answer@);
                }
                let key = trim(answer.as_str());
                if key.is_empty() {
                    Action::Done
                } else {
                    self.pending = Pending::StartClock { issue_key: key.to_owned() };
                    Action::ReadClock
                }
            },
            _ => Action::Done,
        }
    }

    fn when_start_clock(&mut self, issue_key: String, event: Event) -> (action: Action)
        requires
            old(self)@.pending is Nothing,
        ensures
            (final(self)@, action@) == next(
                old(self)@.awaiting(PendingView::StartClock { issue_key: issue_key@ }),
                event@,
            ),
    {
        match event {
            Event::Clock { local_time, monotonic_ns } => {
                self.state = State::Running {
                    issue_key,
                    started_at: local_time,
                    started_ns: monotonic_ns,
                };
                Action::Done
            },
            _ => Action::Done,
        }
    }

    fn when_stop_clock(
        &mut self,
        issue_key: String,
        started_at: String,
        started_ns: u64,
        event: Event,
    ) -> (action: Action)
        requires
            old(self)@.pending is Nothing,
        ensures
            (final(self)@, action@) == next(
                old(self)@.awaiting(
                    PendingView::StopClock {
                        issue_key: issue_key@,
                        started_at: started_at@,
                        started_ns,
                    },
                ),
                event@,
            ),
    {
        match event {
            Event::Clock { monotonic_ns, .. } => {
                let mut label = "Work log description for ".to_owned();
                label.append(issue_key.as_str());
                label.append(":");
                let prompt = prompt_text("Stop Timer", label.as_str(), "");
                self.pending = Pending::Description {
                    issue_key,
                    started_at,
                    started_ns,
                    stopped_ns: monotonic_ns,
                };
                Action::Prompt(prompt)
            },
            _ => Action::Done,
        }
    }

    fn when_described(
        &mut self,
        issue_key: String,
        started_at: String,
        started_ns: u64,
        stopped_ns: u64,
        event: Event,
    ) -> (action: Action)
        requires
            old(self)@.pending is Nothing,
        ensures
            (final(self)@, action@) == next(
                old(self)@.awaiting(
                    PendingView::Description {
                        issue_key: issue_key@,
                        started_at: started_at@,
                        started_ns,
                        stopped_ns,
                    },
                ),
                event@,
            ),
    {
        match event {
            Event::Answer(Some(comment)) => {
                let elapsed_seconds: u64 = if stopped_ns >= started_ns {
                    (stopped_ns - started_ns) / 1_000_000_000
                } else {
                    0
                };
                let request = worklog_request(
                    self.config.jira_url.as_str(),
                    self.config.api_token.as_str(),
                    issue_key.as_str(),
                    started_at.as_str(),
                    elapsed_seconds as i64,
                    comment.as_str(),
                );
                self.state = State::Idle;
                self.pending = Pending::Worklog { issue_key, elapsed_seconds, comment };
                Action::AddWorklog(request)
            },
            _ => Action::Done,
        }
    }

    fn when_logged(
        &mut self,
        issue_key: String,
        elapsed_seconds: u64,
        comment: String,
        event: Event,
    ) -> (action: Action)
        requires
            old(self)@.pending is Nothing,
        ensures
            (final(self)@, action@) == next(
                old(self)@.awaiting(
                    PendingView::Worklog {
                        issue_key: issue_key@,
                        elapsed_seconds,
                        comment: comment@,
                    },
                ),
                event@,
            ),
    {
        match event {
            Event::WorklogSent(Ok(())) => {
                let minutes: u64 = elapsed_seconds / 60 + if elapsed_seconds % 60 >= 30 {
                    1
                } else {
                    0
                };
                assert(minutes == minutes_of(elapsed_seconds as nat));
                let mut body = "Logged ".to_owned();
                push_decimal(&mut body, minutes);
                body.append(" min on ");
                body.append(issue_key.as_str());
                Action::Notify { summary: "Tempo Shortcut".to_owned(), body }
            },
            Event::WorklogSent(Err(error)) => {
                let mut text = "Could not log time on ".to_owned();
                text.append(issue_key.as_str());
                text.append(" (");
                push_decimal(&mut text, elapsed_seconds);
                text.append("s elapsed):\n");
                text.append(error.as_str());
                text.append("\n\nDescription: ");
                text.append(comment.as_str());
                Action::ShowError { title: "Tempo Shortcut - worklog failed".to_owned(), text }
            },
            _ => Action::Done,
        }
    }

    fn when_url_given(&mut self, event: Event) -> (action: Action)
        requires
            old(self)@.pending is Nothing,
        ensures
            (final(self)@, action@) == next(old(self)@.awaiting(PendingView::BaseUrl), event@),
    {
        match event {
            Event::Answer(Some(url)) => {
                self.pending = Pending::Token { url };
                Action::Prompt(
                    prompt_secret(
                        "Jira Settings",
                        "Jira API token (leave blank to keep the current one):",
                    ),
                )
            },
            _ => Action::Done,
        }
    }

    fn when_token_given(&mut self, url: String, event: Event) -> (action: Action)
        requires
            old(self)@.pending is Nothing,
        ensures
            (final(self)@, action@) == next(
                old(self)@.awaiting(PendingView::Token { url: url@ }),
                event@,
            ),
    {
        match event {
            Event::Answer(Some(answer)) => {
                proof {
                    lemma_trimmed_empty_iff_blank(answer@);
                }
                let new_url = trim_end_char(trim(url.as_str()), '/').to_owned();
                let token_input = trim(answer.as_str());
                let new_token = if token_input.is_empty() {
                    self.config.api_token.clone()
                } else {
                    token_input.to_owned()
                };
                let check = token_check(new_url.as_str(), new_token.as_str());
                self.pending = Pending::Verification { url: new_url, token: new_token };
                Action::VerifyToken(check)
            },
            _ => Action::Done,
        }
    }

    fn when_verified(&mut self, url: String, token: String, event: Event) -> (action: Action)
        requires
            old(self)@.pending is Nothing,
        ensures
            (final(self)@, action@) == next(
                old(self)@.awaiting(PendingView::Verification { url: url@, token: token@ }),
                event@,
            ),
    {
        match event {
            Event::TokenChecked(Ok(display_name)) => {
                self.config = Config { jira_url: url, api_token: token };
                self.pending = Pending::Saving { display_name };
                Action::SaveConfig(self.config.duplicate())
            },
            Event::TokenChecked(Err(error)) => {
                let mut text = "Could not verify the Jira URL/token, nothing was changed:\n".to_owned();
                text.append(error.as_str());
                Action::ShowError { title: "Tempo Shortcut - Settings not saved".to_owned(), text }
            },
            _ => Action::Done,
        }
    }

    fn when_saved(&mut self, display_name: String, event: Event) -> (action: Action)
        requires
            old(self)@.pending is Nothing,
        ensures
            (final(self)@, action@) == next(
                old(self)@.awaiting(PendingView::Saving { display_name: display_name@ }),
                event@,
            ),
    {
        match event {
            Event::Saved(Ok(())) => {
                let mut body = "Settings saved. Signed in as ".to_owned();
                body.append(display_name.as_str());
                body.append(".");
                Action::Notify { summary: "Tempo Shortcut".to_owned(), body }
            },
            Event::Saved(Err(error)) => {
                let mut text = "Verified but failed to save settings: ".to_owned();
                text.append(error.as_str());
                Action::ShowError { title: "Tempo Shortcut".to_owned(), text }
            },
            _ => Action::Done,
        }
    }
}


/// An entry of the tray menu.
pub enum MenuEntry {
    Item { label: String, icon_name: String, action: MenuAction },
    Separator,
}

/// A menu entry as text.
#[verifier::ext_equal]
pub enum MenuEntryView {
    Item { label: Seq<char>, icon_name: Seq<char>, action: MenuAction },
    Separator,
}

impl View for MenuEntry {
    type V = MenuEntryView;

    open spec fn view(&self) -> MenuEntryView {
        match self {
            MenuEntry::Item { label, icon_name, action } => MenuEntryView::Item {
                label: label@,
                icon_name: icon_name@,
                action: *action,
            },
            MenuEntry::Separator => MenuEntryView::Separator,
        }
    }
}

/// The tray's title: the application's name, and the issue being tracked.
pub open spec fn title_text(state: StateView) -> Seq<char> {
    match state {
        StateView::Idle => app_name(),
        StateView::Running { issue_key, .. } => "Tempo Shortcut - tracking "@ + issue_key,
    }
}

/// The tray menu: start or stop the timer, settings, exit.
pub open spec fn menu_view(state: StateView) -> Seq<MenuEntryView> {
    let first = match state {
        StateView::Idle => MenuEntryView::Item {
            label: "Start Timer..."@,
            icon_name: "media-playback-start"@,
            action: MenuAction::StartTimer,
        },
        StateView::Running { issue_key, .. } => MenuEntryView::Item {
            label: "Stop Timer ("@ + issue_key + ")"@,
            icon_name: "media-playback-stop"@,
            action: MenuAction::StopTimer,
        },
    };
    seq![
        first,
        MenuEntryView::Separator,
        MenuEntryView::Item {
            label: "Settings..."@,
            icon_name: "preferences-system"@,
            action: MenuAction::Settings,
        },
        MenuEntryView::Separator,
        MenuEntryView::Item {
            label: "Exit"@,
            icon_name: "application-exit"@,
            action: MenuAction::Exit,
        },
    ]
}

impl AppTray {
    /// The tray's identifier.
    pub fn id(&self) -> (r: String)
        ensures
            r@ == "tempo-shortcut"@,
    {
        "tempo-shortcut".to_owned()
    }

    /// The tray's title.
    pub fn title(&self) -> (r: String)
        ensures
            r@ == title_text(self@.state),
    {
        match &self.state {
            State::Idle => "Tempo Shortcut".to_owned(),
            State::Running { issue_key, .. } => {
                let mut r = "Tempo Shortcut - tracking ".to_owned();
                r.append(issue_key.as_str());
                r
            },
        }
    }

    /// The tray's icon: the clock face while idle, the hourglass while a
    /// timer runs.
    pub fn icon_pixmap(&self) -> (r: Vec<Icon>)
        ensures
            r.len() == 1,
            r[0].width == 32,
            r[0].height == 32,
            r[0].data@ == if self@.state is Running {
                running_picture()
            } else {
                idle_picture()
            },
    {
        let icon = match &self.state {
            State::Idle => idle_icon(),
            State::Running { .. } => running_icon(),
        };
        let mut r: Vec<Icon> = Vec::new();
        r.push(icon);
        r
    }

    /// The tray menu.
    pub fn menu(&self) -> (r: Vec<MenuEntry>)
        ensures
            r@.map_values(|m: MenuEntry| m@) == menu_view(self@.state),
    {
        let mut items: Vec<MenuEntry> = Vec::new();
        match &self.state {
            State::Idle => items.push(
                MenuEntry::Item {
                    label: "Start Timer...".to_owned(),
                    icon_name: "media-playback-start".to_owned(),
                    action: MenuAction::StartTimer,
                },
            ),
            State::Running { issue_key, .. } => {
                let mut label = "Stop Timer (".to_owned();
                label.append(issue_key.as_str());
                label.append(")");
                items.push(
                    MenuEntry::Item {
                        label,
                        icon_name: "media-playback-stop".to_owned(),
                        action: MenuAction::StopTimer,
                    },
                );
            },
        }
        items.push(MenuEntry::Separator);
        items.push(
            MenuEntry::Item {
                label: "Settings...".to_owned(),
                icon_name: "preferences-system".to_owned(),
                action: MenuAction::Settings,
            },
        );
        items.push(MenuEntry::Separator);
        items.push(
            MenuEntry::Item {
                label: "Exit".to_owned(),
                icon_name: "application-exit".to_owned(),
                action: MenuAction::Exit,
            },
        );
        assert(items@.map_values(|m: MenuEntry| m@) =~= menu_view(self@.state));
        items
    }

    /// The current settings.
    pub fn config(&self) -> (r: &Config)
        ensures
            r@ == self@.config,
    {
        &self.config
    }

    /// The timer.
    pub fn state(&self) -> (r: &State)
        ensures
            r@ == self@.state,
    {
        &self.state
    }
}

} // verus!

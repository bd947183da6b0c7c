//! Properties of the tray application that span several events or every
//! state, proved over the specification of `AppTray::handle`.
use vstd::prelude::*;
use crate::config::ConfigView;
use crate::jira::{
    myself_url, spent_seconds, token_result, worklog_result, worklog_url, ExchangeView,
    TokenCheckView,
};
use crate::text::{is_blank, lossy_utf8, lemma_trimmed_idempotent, lemma_trimmed_nonempty, strip_trailing, trimmed};
use crate::tray::{
    elapsed_between, menu_view, next, normalized_url, ActionView, AppTrayView, EventView,
    MenuAction, MenuEntryView, PendingView, StateView,
};

verus! {

/// The host keeps going exactly as long as the application waits: an action
/// ends the flow if and only if the application is left waiting for nothing.
pub proof fn law_flow_ends_with_final_action(t: AppTrayView, e: EventView)
    ensures
        next(t, e).1.ends_flow() <==> next(t, e).0.pending is Nothing,
{
}

/// A new application waits for nothing and so is well formed.
pub proof fn law_new_tray_well_formed(config: ConfigView)
    ensures
        (AppTrayView { config, state: StateView::Idle, pending: PendingView::Nothing }).well_formed(),
{
}

/// A stop in progress always belongs to the running timer, whatever events
/// arrive.
pub proof fn law_well_formed_kept(t: AppTrayView, e: EventView)
    requires
        t.well_formed(),
    ensures
        next(t, e).0.well_formed(),
{
}

/// The timer starts only when the clocks are read after an issue key was
/// entered, and stops only when a description is entered.
pub proof fn law_timer_changes_only_at_start_and_stop(t: AppTrayView, e: EventView)
    ensures
        next(t, e).0.state != t.state ==> {
            ||| t.pending is StartClock && e is Clock
            ||| t.pending is Description && e matches EventView::Answer(Some(_))
        },
{
}

/// The settings change only once Jira has confirmed the new URL and token.
pub proof fn law_settings_change_only_when_confirmed(t: AppTrayView, e: EventView)
    ensures
        next(t, e).0.config != t.config ==> {
            &&& t.pending is Verification
            &&& e matches EventView::TokenChecked(Ok(_))
        },
{
}

/// Without a URL and a token a timer cannot be started: an error is shown
/// and nothing changes.
pub proof fn law_start_needs_settings(t: AppTrayView)
    requires
        t.pending is Nothing,
        !t.config.configured(),
    ensures
        next(t, EventView::Menu(MenuAction::StartTimer)).0 == t,
        next(t, EventView::Menu(MenuAction::StartTimer)).1 is ShowError,
{
}

/// Starting a timer on a non-blank issue key tracks the trimmed key from the
/// moment the clocks are read.
pub proof fn law_start_tracks_entered_issue(
    t: AppTrayView,
    answer: Seq<char>,
    local_time: Seq<char>,
    monotonic_ns: u64,
)
    requires
        t.pending is Nothing,
        t.config.configured(),
        !is_blank(answer),
    ensures
        ({
            let (t1, a1) = next(t, EventView::Menu(MenuAction::StartTimer));
            let (t2, a2) = next(t1, EventView::Answer(Some(answer)));
            let (t3, a3) = next(t2, EventView::Clock { local_time, monotonic_ns });
            &&& a1 is Prompt
            &&& a2 is ReadClock
            &&& a3 is Done
            &&& t3 == (AppTrayView {
                config: t.config,
                state: StateView::Running {
                    issue_key: trimmed(answer),
                    started_at: local_time,
                    started_ns: monotonic_ns,
                },
                pending: PendingView::Nothing,
            })
        }),
{
}

/// A blank or cancelled issue key starts nothing.
pub proof fn law_blank_issue_starts_nothing(t: AppTrayView, answer: Option<Seq<char>>)
    requires
        t.pending is Nothing,
        t.config.configured(),
        answer matches Some(a) ==> is_blank(a),
    ensures
        ({
            let (t1, _) = next(t, EventView::Menu(MenuAction::StartTimer));
            next(t1, EventView::Answer(answer)) == (t, ActionView::Done)
        }),
{
}

/// Cancelling the description keeps the timer running, so no tracked time is
/// lost.
pub proof fn law_cancelled_stop_keeps_timer(
    t: AppTrayView,
    local_time: Seq<char>,
    monotonic_ns: u64,
)
    requires
        t.pending is Nothing,
        t.state is Running,
    ensures
        ({
            let (t1, _) = next(t, EventView::Menu(MenuAction::StopTimer));
            let (t2, _) = next(t1, EventView::Clock { local_time, monotonic_ns });
            next(t2, EventView::Answer(None)) == (t, ActionView::Done)
        }),
{
}

/// Stopping the timer with a description books the tracked issue, from the
/// time it was started, for the elapsed whole seconds but at least a minute,
/// on the configured Jira with the configured token; the timer is then idle.
pub proof fn law_stop_books_tracked_time(
    t: AppTrayView,
    local_time: Seq<char>,
    monotonic_ns: u64,
    comment: Seq<char>,
)
    requires
        t.pending is Nothing,
        t.state is Running,
    ensures
        ({
            let (t1, _) = next(t, EventView::Menu(MenuAction::StopTimer));
            let (t2, _) = next(t1, EventView::Clock { local_time, monotonic_ns });
            let (t3, a3) = next(t2, EventView::Answer(Some(comment)));
            let elapsed = elapsed_between(t.state->started_ns, monotonic_ns);
            &&& t3.state is Idle
            &&& t3.config == t.config
            &&& a3 matches ActionView::AddWorklog(request) && {
                &&& request.url == worklog_url(t.config.jira_url, t.state->issue_key)
                &&& request.api_token == t.config.api_token
                &&& request.started == t.state->started_at
                &&& request.comment == comment
                &&& request.time_spent_seconds == spent_seconds(elapsed as int)
                &&& request.time_spent_seconds >= 60
            }
        }),
{
}

/// Stopping when no timer runs does nothing.
pub proof fn law_stop_when_idle_does_nothing(t: AppTrayView)
    requires
        t.pending is Nothing,
        t.state is Idle,
    ensures
        next(t, EventView::Menu(MenuAction::StopTimer)) == (t, ActionView::Done),
{
}

/// Settings that Jira refuses change nothing: the error is shown and the
/// settings and the timer are as before.
pub proof fn law_refused_settings_change_nothing(
    t: AppTrayView,
    url: Seq<char>,
    token: Seq<char>,
    error: Seq<char>,
)
    requires
        t.pending is Nothing,
    ensures
        ({
            let (t1, _) = next(t, EventView::Menu(MenuAction::Settings));
            let (t2, _) = next(t1, EventView::Answer(Some(url)));
            let (t3, a3) = next(t2, EventView::Answer(Some(token)));
            let (t4, a4) = next(t3, EventView::TokenChecked(Err(error)));
            &&& a3 is VerifyToken
            &&& t4 == t
            &&& a4 matches ActionView::ShowError { title, .. } && title
                == "Tempo Shortcut - Settings not saved"@
        }),
{
}

/// The settings prompt is pre-filled with the current URL; a blank token
/// keeps the current one; what Jira confirms is what is stored.
pub proof fn law_confirmed_settings_are_stored(
    t: AppTrayView,
    url: Seq<char>,
    token: Seq<char>,
    display_name: Seq<char>,
)
    requires
        t.pending is Nothing,
    ensures
        ({
            let (t1, a1) = next(t, EventView::Menu(MenuAction::Settings));
            let (t2, _) = next(t1, EventView::Answer(Some(url)));
            let (t3, a3) = next(t2, EventView::Answer(Some(token)));
            let (t4, a4) = next(t3, EventView::TokenChecked(Ok(display_name)));
            let stored = ConfigView {
                jira_url: normalized_url(url),
                api_token: if is_blank(token) {
                    t.config.api_token
                } else {
                    trimmed(token)
                },
            };
            &&& a1 matches ActionView::Prompt(p) && p.default_text == t.config.jira_url
            &&& a3 == ActionView::VerifyToken(
                TokenCheckView { url: myself_url(stored.jira_url), api_token: stored.api_token },
            )
            &&& a4 == ActionView::SaveConfig(stored)
            &&& t4.config == stored
            &&& t4.state == t.state
        }),
{
}

/// Without trailing occurrences of `c` nothing is removed.
pub proof fn lemma_strip_trailing_ends_without(s: Seq<char>, c: char)
    ensures
        strip_trailing(s, c).len() > 0 ==> strip_trailing(s, c).last() != c,
        strip_trailing(s, c).len() <= s.len(),
    decreases s.len(),
{
    if s.len() > 0 && s.last() == c {
        lemma_strip_trailing_ends_without(s.drop_last(), c);
    }
}

/// A stored URL never ends with a slash.
pub proof fn law_stored_url_has_no_trailing_slash(url: Seq<char>)
    ensures
        normalized_url(url).len() > 0 ==> normalized_url(url).last() != '/',
{
    lemma_strip_trailing_ends_without(trimmed(url), '/');
}

/// A trailing slash on the base URL does not change the endpoints.
pub proof fn law_trailing_slash_ignored(base_url: Seq<char>, issue_key: Seq<char>)
    ensures
        worklog_url(base_url.push('/'), issue_key) == worklog_url(base_url, issue_key),
        myself_url(base_url.push('/')) == myself_url(base_url),
{
    assert(base_url.push('/').drop_last() =~= base_url);
}

/// A worklog is booked for at least a minute, and for the elapsed time when
/// that is longer.
pub proof fn law_worklog_at_least_a_minute(elapsed_seconds: int)
    ensures
        spent_seconds(elapsed_seconds) >= 60,
        elapsed_seconds >= 60 ==> spent_seconds(elapsed_seconds) == elapsed_seconds,
{
}


/// An issue key as a timer holds it: not empty, and without surrounding
/// whitespace.
pub open spec fn tidy_key(issue_key: Seq<char>) -> bool {
    issue_key.len() > 0 && trimmed(issue_key) == issue_key
}

/// The issue key of the running timer, and that of a timer about to start,
/// are tidy.
pub open spec fn keys_tidy(t: AppTrayView) -> bool {
    &&& (t.state matches StateView::Running { issue_key, .. } ==> tidy_key(issue_key))
    &&& (t.pending matches PendingView::StartClock { issue_key } ==> tidy_key(issue_key))
}

/// A new application holds no issue key.
pub proof fn law_new_tray_keys_tidy(config: ConfigView)
    ensures
        keys_tidy(AppTrayView { config, state: StateView::Idle, pending: PendingView::Nothing }),
{
}

/// Whatever events arrive, a running timer's issue key is never empty and
/// never has surrounding whitespace.
pub proof fn law_running_key_is_tidy(t: AppTrayView, e: EventView)
    requires
        keys_tidy(t),
    ensures
        keys_tidy(next(t, e).0),
{
    if let EventView::Answer(Some(answer)) = e {
        if t.pending is IssueKey && !is_blank(answer) {
            lemma_trimmed_nonempty(answer);
            lemma_trimmed_idempotent(answer);
        }
    }
}


/// Stopping a timer books every whole second between the clock readings at
/// start and at stop, or a minute when that is less.
pub proof fn law_stop_books_whole_elapsed_seconds(
    t: AppTrayView,
    local_time: Seq<char>,
    now_ns: u64,
    comment: Seq<char>,
)
    requires
        t.pending is Nothing,
        t.state is Running,
        now_ns >= t.state->started_ns,
    ensures
        ({
            let (t1, _) = next(t, EventView::Menu(MenuAction::StopTimer));
            let (t2, _) = next(t1, EventView::Clock { local_time, monotonic_ns: now_ns });
            let (_, a3) = next(t2, EventView::Answer(Some(comment)));
            let seconds = (now_ns - t.state->started_ns) / 1_000_000_000;
            a3 matches ActionView::AddWorklog(request) && request.time_spent_seconds == if seconds
                < 60 {
                60
            } else {
                seconds
            }
        }),
{
}

/// A worklog counts as created exactly when Jira replied with a status from
/// 200 to 299; any other reply is reported with its status and body.
pub proof fn law_worklog_created_only_on_success_status(x: ExchangeView)
    ensures
        worklog_result(x) is Ok <==> (x matches ExchangeView::Replied { status, .. } && 200
            <= status <= 299),
        x matches ExchangeView::Replied { status, status_text, body } ==> (!(200 <= status
            <= 299) ==> worklog_result(x) == Err::<(), Seq<char>>(
            "Jira returned "@ + status_text + ": "@ + match body {
                Ok(b) => lossy_utf8(b),
                Err(_) => Seq::<char>::empty(),
            },
        )),
{
}

/// A token is accepted only when Jira replied with a status from 200 to 299;
/// any other reply is reported with its status and body.
pub proof fn law_token_accepted_only_on_success_status(x: ExchangeView)
    ensures
        token_result(x) is Ok ==> (x matches ExchangeView::Replied { status, .. } && 200 <= status
            <= 299),
        x matches ExchangeView::Replied { status, status_text, body } ==> (!(200 <= status
            <= 299) ==> token_result(x) == Err::<Seq<char>, Seq<char>>(
            "Jira returned "@ + status_text + ": "@ + match body {
                Ok(b) => lossy_utf8(b),
                Err(_) => Seq::<char>::empty(),
            },
        )),
{
}

/// Exit always leaves the application when no flow runs, whatever the timer
/// and the settings, and changes nothing.
pub proof fn law_exit_quits(t: AppTrayView)
    requires
        t.pending is Nothing,
    ensures
        next(t, EventView::Menu(MenuAction::Exit)) == (t, ActionView::Quit),
{
}

/// Each menu entry does what its label says: while a timer runs the first
/// entry stops it (the clocks are read for the stop); while idle it starts
/// one (the issue key is asked for, given settings); the third opens the
/// settings; the last leaves the application.
pub proof fn law_menu_entries_do_what_they_say(t: AppTrayView)
    requires
        t.pending is Nothing,
    ensures
        menu_view(t.state).len() == 5,
        menu_view(t.state)[1] is Separator,
        menu_view(t.state)[3] is Separator,
        menu_view(t.state)[0] matches MenuEntryView::Item { action, .. } && {
            &&& t.state is Running ==> {
                &&& next(t, EventView::Menu(action)).1 is ReadClock
                &&& next(t, EventView::Menu(action)).0.pending is StopClock
            }
            &&& (t.state is Idle && t.config.configured()) ==> next(
                t,
                EventView::Menu(action),
            ).0.pending is IssueKey
        },
        menu_view(t.state)[2] matches MenuEntryView::Item { label, action, .. } && label
            == "Settings..."@ && next(t, EventView::Menu(action)).0.pending is BaseUrl,
        menu_view(t.state)[4] matches MenuEntryView::Item { label, action, .. } && label
            == "Exit"@ && next(t, EventView::Menu(action)).1 is Quit,
{
}

} // verus!

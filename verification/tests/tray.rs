use tempo_shortcut::config::Config;
use tempo_shortcut::icons::{idle_icon, running_icon};
use tempo_shortcut::tray::{Action, AppTray, Event, MenuAction, MenuEntry, State};

const NS: u64 = 1_000_000_000;
const STARTED: &str = "2024-05-01T09:30:00.000+0330";

fn configured() -> AppTray {
    AppTray::new(Config {
        jira_url: "https://jira.example.com/".to_string(),
        api_token: "tok".to_string(),
    })
}

fn menu(t: &mut AppTray, m: MenuAction) -> Action {
    t.handle(Event::Menu(m))
}

fn answer(t: &mut AppTray, a: Option<&str>) -> Action {
    t.handle(Event::Answer(a.map(|s| s.to_string())))
}

fn clock(t: &mut AppTray, ms: u64) -> Action {
    t.handle(Event::Clock { local_time: STARTED.to_string(), monotonic_ns: ms })
}

fn is_done(a: &Action) -> bool {
    matches!(a, Action::Done)
}

fn expect_error(a: Action, title: &str, text: &str) {
    match a {
        Action::ShowError { title: t, text: x } => {
            assert_eq!(t, title);
            assert_eq!(x, text);
        }
        _ => panic!("expected an error dialog"),
    }
}

fn expect_notify(a: Action, summary: &str, body: &str) {
    match a {
        Action::Notify { summary: s, body: b } => {
            assert_eq!(s, summary);
            assert_eq!(b, body);
        }
        _ => panic!("expected a notification"),
    }
}

fn running(key: &str, start_s: u64) -> AppTray {
    let mut t = configured();
    menu(&mut t, MenuAction::StartTimer);
    answer(&mut t, Some(key));
    clock(&mut t, start_s * NS);
    t
}

fn is_running_on(t: &AppTray, key: &str) -> bool {
    match t.state() {
        State::Running { issue_key, started_at, .. } => issue_key == key && started_at == STARTED,
        State::Idle => false,
    }
}

#[test]
fn start_needs_settings() {
    let mut t = AppTray::new(Config::default());
    expect_error(
        menu(&mut t, MenuAction::StartTimer),
        "Tempo Shortcut",
        "Set the Jira URL and API token first, using the Settings menu item.",
    );
    assert!(matches!(t.state(), State::Idle));
}

#[test]
fn start_flow_tracks_trimmed_key() {
    let mut t = configured();
    match menu(&mut t, MenuAction::StartTimer) {
        Action::Prompt(p) => {
            assert_eq!(p.title, "Start Timer");
            assert_eq!(p.text, "Jira issue key (e.g. RASA-123):");
            assert_eq!(p.default_text, "");
            assert!(!p.hide_text);
        }
        _ => panic!("expected a prompt"),
    }
    assert!(matches!(answer(&mut t, Some("  RASA-123 ")), Action::ReadClock));
    assert!(is_done(&clock(&mut t, 5 * NS)));
    assert!(is_running_on(&t, "RASA-123"));
    assert_eq!(t.title(), "Tempo Shortcut - tracking RASA-123");
}

#[test]
fn blank_or_cancelled_key_starts_nothing() {
    let mut t = configured();
    menu(&mut t, MenuAction::StartTimer);
    assert!(is_done(&answer(&mut t, Some("  \t"))));
    assert!(matches!(t.state(), State::Idle));
    menu(&mut t, MenuAction::StartTimer);
    assert!(is_done(&answer(&mut t, None)));
    assert!(matches!(t.state(), State::Idle));
    assert_eq!(t.title(), "Tempo Shortcut");
}

#[test]
fn cancelled_stop_keeps_timer() {
    let mut t = running("RASA-123", 5);
    assert!(matches!(menu(&mut t, MenuAction::StopTimer), Action::ReadClock));
    match clock(&mut t, 130 * NS) {
        Action::Prompt(p) => {
            assert_eq!(p.title, "Stop Timer");
            assert_eq!(p.text, "Work log description for RASA-123:");
            assert_eq!(p.default_text, "");
        }
        _ => panic!("expected a prompt"),
    }
    assert!(is_done(&answer(&mut t, None)));
    assert!(is_running_on(&t, "RASA-123"));
}

#[test]
fn stop_books_worklog() {
    let mut t = running("RASA-123", 5);
    menu(&mut t, MenuAction::StopTimer);
    clock(&mut t, 130 * NS + 999_999_999);
    match answer(&mut t, Some("did stuff")) {
        Action::AddWorklog(r) => {
            assert_eq!(r.url, "https://jira.example.com/rest/api/2/issue/RASA-123/worklog");
            assert_eq!(r.api_token, "tok");
            assert_eq!(r.started, STARTED);
            assert_eq!(r.comment, "did stuff");
            assert_eq!(r.time_spent_seconds, 125);
        }
        _ => panic!("expected a worklog request"),
    }
    assert!(matches!(t.state(), State::Idle));
    expect_notify(
        t.handle(Event::WorklogSent(Ok(()))),
        "Tempo Shortcut",
        "Logged 2 min on RASA-123",
    );
}

#[test]
fn short_work_books_a_minute() {
    let mut t = running("K-1", 1);
    menu(&mut t, MenuAction::StopTimer);
    clock(&mut t, 11 * NS);
    match answer(&mut t, Some("")) {
        Action::AddWorklog(r) => assert_eq!(r.time_spent_seconds, 60),
        _ => panic!("expected a worklog request"),
    }
    expect_notify(t.handle(Event::WorklogSent(Ok(()))), "Tempo Shortcut", "Logged 0 min on K-1");
}

#[test]
fn clock_going_backwards_counts_no_time() {
    let mut t = running("K-1", 50);
    menu(&mut t, MenuAction::StopTimer);
    clock(&mut t, NS);
    match answer(&mut t, Some("x")) {
        Action::AddWorklog(r) => assert_eq!(r.time_spent_seconds, 60),
        _ => panic!("expected a worklog request"),
    }
}

#[test]
fn failed_worklog_reports_description() {
    let mut t = running("RASA-123", 5);
    menu(&mut t, MenuAction::StopTimer);
    clock(&mut t, 130 * NS);
    answer(&mut t, Some("did stuff"));
    expect_error(
        t.handle(Event::WorklogSent(Err("Jira returned 400 Bad Request: no".to_string()))),
        "Tempo Shortcut - worklog failed",
        "Could not log time on RASA-123 (125s elapsed):\nJira returned 400 Bad Request: no\n\nDescription: did stuff",
    );
    assert!(matches!(t.state(), State::Idle));
}

#[test]
fn logged_minutes_round_to_nearest() {
    for elapsed in [0u64, 29, 30, 89, 90, 3599, 3600, 5430] {
        let mut t = running("K-1", 0);
        menu(&mut t, MenuAction::StopTimer);
        clock(&mut t, elapsed * NS);
        answer(&mut t, Some("c"));
        let minutes = (elapsed as f64 / 60.0).round() as i64;
        expect_notify(
            t.handle(Event::WorklogSent(Ok(()))),
            "Tempo Shortcut",
            &format!("Logged {minutes} min on K-1"),
        );
    }
}

#[test]
fn stop_when_idle_does_nothing() {
    let mut t = configured();
    assert!(is_done(&menu(&mut t, MenuAction::StopTimer)));
    assert!(matches!(t.state(), State::Idle));
}

#[test]
fn settings_with_blank_token_keep_current_token() {
    let mut t = configured();
    match menu(&mut t, MenuAction::Settings) {
        Action::Prompt(p) => {
            assert_eq!(p.title, "Jira Settings");
            assert_eq!(p.text, "Jira base URL (e.g. https://jira.arasdp.ir):");
            assert_eq!(p.default_text, "https://jira.example.com/");
        }
        _ => panic!("expected a prompt"),
    }
    match answer(&mut t, Some("  https://new.example.com// ")) {
        Action::Prompt(p) => {
            assert_eq!(p.text, "Jira API token (leave blank to keep the current one):");
            assert_eq!(p.default_text, "");
            assert!(p.hide_text);
        }
        _ => panic!("expected a prompt"),
    }
    match answer(&mut t, Some("   ")) {
        Action::VerifyToken(c) => {
            assert_eq!(c.url, "https://new.example.com/rest/api/2/myself");
            assert_eq!(c.api_token, "tok");
        }
        _ => panic!("expected a token check"),
    }
    match t.handle(Event::TokenChecked(Ok("Ada".to_string()))) {
        Action::SaveConfig(c) => {
            assert_eq!(c.jira_url, "https://new.example.com");
            assert_eq!(c.api_token, "tok");
        }
        _ => panic!("expected the settings to be stored"),
    }
    assert_eq!(t.config().jira_url, "https://new.example.com");
    expect_notify(
        t.handle(Event::Saved(Ok(()))),
        "Tempo Shortcut",
        "Settings saved. Signed in as Ada.",
    );
}

#[test]
fn settings_with_new_token() {
    let mut t = configured();
    menu(&mut t, MenuAction::Settings);
    answer(&mut t, Some("https://jira.example.com"));
    match answer(&mut t, Some(" newtok ")) {
        Action::VerifyToken(c) => assert_eq!(c.api_token, "newtok"),
        _ => panic!("expected a token check"),
    }
    t.handle(Event::TokenChecked(Ok("Ada".to_string())));
    assert_eq!(t.config().api_token, "newtok");
}

#[test]
fn refused_settings_change_nothing() {
    let mut t = configured();
    menu(&mut t, MenuAction::Settings);
    answer(&mut t, Some("https://other.example.com"));
    answer(&mut t, Some("other"));
    expect_error(
        t.handle(Event::TokenChecked(Err("boom".to_string()))),
        "Tempo Shortcut - Settings not saved",
        "Could not verify the Jira URL/token, nothing was changed:\nboom",
    );
    assert_eq!(t.config().jira_url, "https://jira.example.com/");
    assert_eq!(t.config().api_token, "tok");
}

#[test]
fn failed_save_is_reported() {
    let mut t = configured();
    menu(&mut t, MenuAction::Settings);
    answer(&mut t, Some("https://other.example.com"));
    answer(&mut t, Some("other"));
    t.handle(Event::TokenChecked(Ok("Ada".to_string())));
    expect_error(
        t.handle(Event::Saved(Err("disk full".to_string()))),
        "Tempo Shortcut",
        "Verified but failed to save settings: disk full",
    );
    assert_eq!(t.config().api_token, "other");
}

#[test]
fn cancelled_settings_change_nothing() {
    let mut t = configured();
    menu(&mut t, MenuAction::Settings);
    assert!(matches!(answer(&mut t, Some("https://x")), Action::Prompt(_)));
    assert!(is_done(&answer(&mut t, None)));
    assert_eq!(t.config().jira_url, "https://jira.example.com/");
}

#[test]
fn exit_quits() {
    let mut t = configured();
    assert!(matches!(menu(&mut t, MenuAction::Exit), Action::Quit));
}

#[test]
fn unexpected_event_ends_flow() {
    let mut t = configured();
    menu(&mut t, MenuAction::StartTimer);
    assert!(is_done(&clock(&mut t, 1)));
    assert!(matches!(t.state(), State::Idle));
    assert!(matches!(menu(&mut t, MenuAction::StartTimer), Action::Prompt(_)));
}

#[test]
fn id_title_and_icon() {
    let t = configured();
    assert_eq!(t.id(), "tempo-shortcut");
    assert_eq!(t.title(), "Tempo Shortcut");
    let icons = t.icon_pixmap();
    assert_eq!(icons.len(), 1);
    assert_eq!(icons[0].data, idle_icon().data);
    let t = running("RASA-1", 0);
    assert_eq!(t.icon_pixmap()[0].data, running_icon().data);
}

fn labels(t: &AppTray) -> Vec<(String, String)> {
    t.menu()
        .into_iter()
        .map(|m| match m {
            MenuEntry::Item { label, icon_name, .. } => (label, icon_name),
            MenuEntry::Separator => ("-".to_string(), String::new()),
        })
        .collect()
}

#[test]
fn menu_follows_state() {
    let idle = labels(&configured());
    let expect = |first: &str, icon: &str| {
        vec![
            (first.to_string(), icon.to_string()),
            ("-".to_string(), String::new()),
            ("Settings...".to_string(), "preferences-system".to_string()),
            ("-".to_string(), String::new()),
            ("Exit".to_string(), "application-exit".to_string()),
        ]
    };
    assert_eq!(idle, expect("Start Timer...", "media-playback-start"));
    let busy = labels(&running("RASA-9", 0));
    assert_eq!(busy, expect("Stop Timer (RASA-9)", "media-playback-stop"));
    match &configured().menu()[0] {
        MenuEntry::Item { action, .. } => assert_eq!(*action, MenuAction::StartTimer),
        MenuEntry::Separator => panic!("expected an item"),
    }
}

#[test]
fn running_key_is_tidy() {
    let mut t = configured();
    menu(&mut t, MenuAction::StartTimer);
    answer(&mut t, Some("\u{3000} K-7 \t"));
    clock(&mut t, 0);
    match t.state() {
        State::Running { issue_key, .. } => {
            assert!(!issue_key.is_empty());
            assert_eq!(issue_key, issue_key.trim());
            assert_eq!(issue_key, "K-7");
        }
        State::Idle => panic!("expected a running timer"),
    }
}

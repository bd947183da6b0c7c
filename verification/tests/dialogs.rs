use tempo_shortcut::dialogs::{
    entry_reply, notify, notify_fallback, prompt_secret, prompt_text, show_error,
};

#[test]
fn text_prompt_command() {
    let p = prompt_text("Start Timer", "Jira issue key (e.g. RASA-123):", "ABC");
    assert!(!p.hide_text);
    let c = p.command();
    assert_eq!(c.program, "zenity");
    assert_eq!(
        c.args,
        vec![
            "--entry",
            "--title",
            "Start Timer",
            "--text",
            "Jira issue key (e.g. RASA-123):",
            "--entry-text",
            "ABC",
            "--width=420"
        ]
    );
}

#[test]
fn secret_prompt_is_masked_and_empty() {
    let p = prompt_secret("Jira Settings", "token?");
    assert!(p.hide_text);
    assert_eq!(p.default_text, "");
    let c = p.command();
    assert_eq!(
        c.args,
        vec![
            "--entry",
            "--title",
            "Jira Settings",
            "--text",
            "token?",
            "--entry-text",
            "",
            "--width=420",
            "--hide-text"
        ]
    );
}

#[test]
fn entry_reply_trims_output() {
    assert_eq!(entry_reply(true, b"  RASA-123 \n"), Some("RASA-123".to_string()));
    assert_eq!(entry_reply(true, b"\n"), Some(String::new()));
}

#[test]
fn entry_reply_keeps_valid_text() {
    assert_eq!(entry_reply(true, b"ab"), Some("ab".to_string()));
    assert_eq!(entry_reply(true, "\u{3000}h\u{e9}llo\u{a0}".as_bytes()), Some("h\u{e9}llo".to_string()));
}

#[test]
fn entry_reply_cancelled() {
    assert_eq!(entry_reply(false, b"RASA-123\n"), None);
}

#[test]
fn entry_reply_replaces_invalid_utf8() {
    assert_eq!(entry_reply(true, b"a\xffb\n"), Some("a\u{fffd}b".to_string()));
}

#[test]
fn error_dialog_command() {
    let c = show_error("Title", "Text");
    assert_eq!(c.program, "zenity");
    assert_eq!(c.args, vec!["--error", "--title", "Title", "--text", "Text", "--width=420"]);
}

#[test]
fn notification_and_fallback() {
    let c = notify("Summary", "Body");
    assert_eq!(c.program, "notify-send");
    assert_eq!(c.args, vec!["Summary", "Body"]);
    assert!(notify_fallback(true, "Summary", "Body").is_none());
    let f = notify_fallback(false, "Summary", "Body").unwrap();
    assert_eq!(f.program, "zenity");
    assert_eq!(f.args, vec!["--info", "--title", "Summary", "--text", "Body", "--width=420"]);
}

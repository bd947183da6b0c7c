//! Native dialogs and notifications, described as commands for the host to
//! run: `zenity` for input and error dialogs, `notify-send` (with a `zenity`
//! information dialog as fallback) for non-blocking confirmations.
use vstd::prelude::*;
use vstd::utf8::{decode_utf8, valid_utf8};
use crate::text::{lossy_utf8, trim, trimmed, utf8_lossy};

verus! {

/// A program to run and the arguments to hand it.
pub struct DialogCommand {
    pub program: String,
    pub args: Vec<String>,
}

/// A command as text.
#[verifier::ext_equal]
pub struct DialogCommandView {
    pub program: Seq<char>,
    pub args: Seq<Seq<char>>,
}

impl View for DialogCommand {
    type V = DialogCommandView;

    open spec fn view(&self) -> DialogCommandView {
        DialogCommandView { program: self.program@, args: self.args.deep_view() }
    }
}

/// A single-line text entry dialog.
pub struct EntryPrompt {
    pub title: String,
    pub text: String,
    pub default_text: String,
    /// The input is masked.
    pub hide_text: bool,
}

/// An entry dialog as text.
#[verifier::ext_equal]
pub struct EntryPromptView {
    pub title: Seq<char>,
    pub text: Seq<char>,
    pub default_text: Seq<char>,
    pub hide_text: bool,
}

impl View for EntryPrompt {
    type V = EntryPromptView;

    open spec fn view(&self) -> EntryPromptView {
        EntryPromptView {
            title: self.title@,
            text: self.text@,
            default_text: self.default_text@,
            hide_text: self.hide_text,
        }
    }
}

/// The plain-text entry dialog with the given title, label and pre-filled
/// text.
pub open spec fn text_prompt(title: Seq<char>, text: Seq<char>, default_text: Seq<char>) -> EntryPromptView {
    EntryPromptView { title, text, default_text, hide_text: false }
}

/// The masked entry dialog with the given title and label; it is never
/// pre-filled.
pub open spec fn secret_prompt(title: Seq<char>, text: Seq<char>) -> EntryPromptView {
    EntryPromptView { title, text, default_text: Seq::empty(), hide_text: true }
}

/// The `zenity` command line of an entry dialog.
pub open spec fn entry_command(p: EntryPromptView) -> DialogCommandView {
    DialogCommandView {
        program: "zenity"@,
        args: seq![
            "--entry"@,
            "--title"@,
            p.title,
            "--text"@,
            p.text,
            "--entry-text"@,
            p.default_text,
            "--width=420"@,
        ] + if p.hide_text {
            seq!["--hide-text"@]
        } else {
            Seq::empty()
        },
    }
}

/// The `zenity` command line of a dialog of the given kind (`--error`,
/// `--info`).
pub open spec fn message_command(kind: Seq<char>, title: Seq<char>, text: Seq<char>) -> DialogCommandView {
    DialogCommandView {
        program: "zenity"@,
        args: seq![kind, "--title"@, title, "--text"@, text, "--width=420"@],
    }
}

/// The `notify-send` command line of a desktop notification.
pub open spec fn notify_command(summary: Seq<char>, body: Seq<char>) -> DialogCommandView {
    DialogCommandView { program: "notify-send"@, args: seq![summary, body] }
}

/// Prompt for a single line of plain text.
pub fn prompt_text(title: &str, text: &str, default: &str) -> (p: EntryPrompt)
    ensures
        p@ == text_prompt(title@, text@, default@),
{
    EntryPrompt {
        title: title.to_owned(),
        text: text.to_owned(),
        default_text: default.to_owned(),
        hide_text: false,
    }
}

/// Prompt for a secret value; the input is masked.
///
/// The field is deliberately never pre-filled: zenity's masked entry can
/// drop the first character when text is pasted over a pre-selected default
/// value.
pub fn prompt_secret(title: &str, text: &str) -> (p: EntryPrompt)
    ensures
        p@ == secret_prompt(title@, text@),
{
    EntryPrompt {
        title: title.to_owned(),
        text: text.to_owned(),
        default_text: String::new(),
        hide_text: true,
    }
}

impl EntryPrompt {
    /// The command that shows this dialog.
    pub fn command(&self) -> (c: DialogCommand)
        ensures
            c@ == entry_command(self@),
    {
        let mut args: Vec<String> = Vec::new();
        args.push("--entry".to_owned());
        args.push("--title".to_owned());
        args.push(self.title.clone());
        args.push("--text".to_owned());
        args.push(self.text.clone());
        args.push("--entry-text".to_owned());
        args.push(self.default_text.clone());
        args.push("--width=420".to_owned());
        if self.hide_text {
            args.push("--hide-text".to_owned());
        }
        let c = DialogCommand { program: "zenity".to_owned(), args };
        assert(c@.args =~= entry_command(self@).args);
        c
    }
}

/// What an entry dialog answered: `None` when it was cancelled (the dialog
/// did not exit successfully), otherwise its output decoded (invalid UTF-8
/// replaced) and trimmed.
pub fn entry_reply(success: bool, stdout: &[u8]) -> (r: Option<String>)
    ensures
        r is Some <==> success,
        r matches Some(t) ==> t@ == trimmed(lossy_utf8(stdout@)),
        valid_utf8(stdout@) ==> (r matches Some(t) ==> t@ == trimmed(decode_utf8(stdout@))),
{
    if success {
        let decoded = utf8_lossy(stdout);
        Some(trim(decoded.as_str()).to_owned())
    } else {
        None
    }
}

fn message(kind: &str, title: &str, text: &str) -> (c: DialogCommand)
    ensures
        c@ == message_command(kind@, title@, text@),
{
    let mut args: Vec<String> = Vec::new();
    args.push(kind.to_owned());
    args.push("--title".to_owned());
    args.push(title.to_owned());
    args.push("--text".to_owned());
    args.push(text.to_owned());
    args.push("--width=420".to_owned());
    let c = DialogCommand { program: "zenity".to_owned(), args };
    assert(c@.args =~= message_command(kind@, title@, text@).args);
    c
}

/// The error dialog with the given title and message.
pub fn show_error(title: &str, text: &str) -> (c: DialogCommand)
    ensures
        c@ == message_command("--error"@, title@, text@),
{
    message("--error", title, text)
}

/// The non-blocking desktop notification with the given summary and body.
pub fn notify(summary: &str, body: &str) -> (c: DialogCommand)
    ensures
        c@ == notify_command(summary@, body@),
{
    let mut args: Vec<String> = Vec::new();
    args.push(summary.to_owned());
    args.push(body.to_owned());
    let c = DialogCommand { program: "notify-send".to_owned(), args };
    assert(c@.args =~= notify_command(summary@, body@).args);
    c
}

/// What follows a notification: nothing when it was delivered, otherwise the
/// information dialog that shows the same summary and body.
pub fn notify_fallback(sent_ok: bool, summary: &str, body: &str) -> (c: Option<DialogCommand>)
    ensures
        c is None <==> sent_ok,
        c matches Some(d) ==> d@ == message_command("--info"@, summary@, body@),
{
    if sent_ok {
        None
    } else {
        Some(message("--info", summary, body))
    }
}

} // verus!

use vstd::prelude::*;

use crate::text::{
    after, has_prefix, rest_after, same_text, split, split_on, starts_with, trim, trim_quotes,
    trimmed, unquoted,
};

verus! {

/// One line of input, classified.
pub enum Command {
    /// `exit` or `quit`.
    Exit,
    /// `help`.
    Help,
    /// `p <text>`: a new prompt template.
    SetPrompt(String),
    /// `~<command>`: run the command under `cargo watch`.
    WatchRun(Vec<String>),
    /// `<<path>`: read commands from a file.
    RunFromFile(String),
    /// `++<toolchain> [<command>]`: switch toolchain, for one command or for good.
    TemporaryToolchainRun(String, Vec<String>),
    /// `+<command>`: run the command under every configured toolchain.
    FanOutRun(Vec<String>),
    /// Anything else: a cargo command.
    PlainRun(Vec<String>),
}

/// What a `Command` holds, as sequences of characters.
pub enum CommandView {
    Exit,
    Help,
    SetPrompt(Seq<char>),
    WatchRun(Seq<Seq<char>>),
    RunFromFile(Seq<char>),
    TemporaryToolchainRun(Seq<char>, Seq<Seq<char>>),
    FanOutRun(Seq<Seq<char>>),
    PlainRun(Seq<Seq<char>>),
}

impl View for Command {
    type V = CommandView;

    open spec fn view(&self) -> CommandView {
        match self {
            Command::Exit => CommandView::Exit,
            Command::Help => CommandView::Help,
            Command::SetPrompt(p) => CommandView::SetPrompt(p@),
            Command::WatchRun(a) => CommandView::WatchRun(a.deep_view()),
            Command::RunFromFile(f) => CommandView::RunFromFile(f@),
            Command::TemporaryToolchainRun(t, a) => CommandView::TemporaryToolchainRun(
                t@,
                a.deep_view(),
            ),
            Command::FanOutRun(a) => CommandView::FanOutRun(a.deep_view()),
            Command::PlainRun(a) => CommandView::PlainRun(a.deep_view()),
        }
    }
}

/// Whether a trimmed line starts with one of the special command forms.
pub open spec fn is_special(t: Seq<char>) -> bool {
    t == "exit"@ || t == "quit"@ || t == "help"@ || has_prefix(t, "p "@) || has_prefix(t, "~"@)
        || has_prefix(t, "<"@) || has_prefix(t, "+"@)
}

/// Arguments of a line: its pieces between single spaces.
pub open spec fn words(s: Seq<char>) -> Seq<Seq<char>> {
    split_on(s, ' ')
}

/// The command that a trimmed line stands for; the first form that matches wins.
pub open spec fn classify(t: Seq<char>) -> CommandView {
    if t == "exit"@ || t == "quit"@ {
        CommandView::Exit
    } else if t == "help"@ {
        CommandView::Help
    } else if has_prefix(t, "p "@) {
        CommandView::SetPrompt(unquoted(after(t, "p "@)))
    } else if has_prefix(t, "~"@) {
        CommandView::WatchRun(words(trimmed(after(t, "~"@))))
    } else if has_prefix(t, "<"@) {
        CommandView::RunFromFile(trimmed(after(t, "<"@)))
    } else if has_prefix(t, "++"@) {
        let parts = words(trimmed(after(t, "++"@)));
        CommandView::TemporaryToolchainRun(trimmed(parts[0]), parts.drop_first())
    } else if has_prefix(t, "+"@) {
        CommandView::FanOutRun(words(trimmed(after(t, "+"@))))
    } else {
        CommandView::PlainRun(words(t))
    }
}

/// The command that a line of input stands for, once trimmed.
pub open spec fn command_of(line: Seq<char>) -> CommandView {
    classify(trimmed(line))
}

/// A line of a command file, trimmed; it is skipped where it is empty or a comment.
pub open spec fn batch_skipped(line: Seq<char>) -> bool {
    trimmed(line).len() == 0 || has_prefix(trimmed(line), "#"@)
}

fn words_of(s: &str) -> (r: Vec<String>)
    ensures
        r.deep_view() == words(s@),
        r.len() >= 1,
{
    split(s, ' ')
}

fn words_after(t: &str, p: &str) -> (r: Vec<String>)
    requires
        has_prefix(t@, p@),
    ensures
        r.deep_view() == words(trimmed(after(t@, p@))),
        r.len() >= 1,
{
    let rest = rest_after(t, p);
    let rest = trim(rest.as_str());
    words_of(rest.as_str())
}

/// Classifies one line of input: it is trimmed, then matched against the
/// command forms in order of priority.
pub fn parse_command(line: &str) -> (r: Command)
    ensures
        r@ == command_of(line@),
{
    let t = trim(line);
    let t = t.as_str();
    if same_text(t, "exit") || same_text(t, "quit") {
        Command::Exit
    } else if same_text(t, "help") {
        Command::Help
    } else if starts_with(t, "p ") {
        let rest = rest_after(t, "p ");
        Command::SetPrompt(trim_quotes(rest.as_str()))
    } else if starts_with(t, "~") {
        Command::WatchRun(words_after(t, "~"))
    } else if starts_with(t, "<") {
        let rest = rest_after(t, "<");
        Command::RunFromFile(trim(rest.as_str()))
    } else if starts_with(t, "++") {
        let mut parts = words_after(t, "++");
        let ghost all = parts.deep_view();
        let first = parts.remove(0);
        assert(parts.deep_view() =~= all.drop_first());
        Command::TemporaryToolchainRun(trim(first.as_str()), parts)
    } else if starts_with(t, "+") {
        Command::FanOutRun(words_after(t, "+"))
    } else {
        Command::PlainRun(words_of(t))
    }
}

/// The arguments of one line of a command file, or `None` where the line is
/// blank or a `#` comment.
pub fn batch_line(line: &str) -> (r: Option<Vec<String>>)
    ensures
        r is None <==> batch_skipped(line@),
        r matches Some(v) ==> v.deep_view() == words(trimmed(line@)),
{
    let t = trim(line);
    let t = t.as_str();
    if t.unicode_len() == 0 || starts_with(t, "#") {
        None
    } else {
        Some(words_of(t))
    }
}

} // verus!

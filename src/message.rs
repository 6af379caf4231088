//! Messages of the build and dev loop, and how the console prints them.
use vstd::prelude::*;
use crate::text::{chars_of, has_prefix, starts_with, string_of};

verus! {

/// The text of `s` read as a JSON compiler diagnostic (its rendered form, or
/// a fixed note when it has none), or `None` when it is not one.
pub uninterp spec fn diagnostic_text(s: Seq<char>) -> Option<Seq<char>>;

/// `s` without its leading white space.
pub uninterp spec fn trimmed_start(s: Seq<char>) -> Seq<char>;

/// Relies on `serde_json::from_str::<cargo_metadata::diagnostic::Diagnostic>`
/// and the diagnostic's `Display`, which writes its rendered text (or a fixed
/// note when there is none); the result depends on the text alone.
#[verifier::external_body]
fn parse_diagnostic(s: &str) -> (r: Option<String>)
    ensures
        match r {
            Some(t) => diagnostic_text(s@) == Some(t@),
            None => diagnostic_text(s@) is None,
        },
{
    serde_json::from_str::<cargo_metadata::diagnostic::Diagnostic>(s).ok().map(|d| d.to_string())
}

/// Relies on `str::trim_start`: the text without its leading white space,
/// a suffix of it.
#[verifier::external_body]
fn trim_start(s: &str) -> (r: String)
    ensures
        r@ == trimmed_start(s@),
        r@.len() <= s@.len(),
        r@ == s@.subrange(s@.len() - r@.len(), s@.len() as int),
{
    s.trim_start().to_owned()
}

/// A line the compiler printed, by kind.
#[derive(Debug)]
pub enum CargoPackagingMessage {
    Blocking(String),
    Compiling(String),
    Warning(String),
    Finished(String),
    /// A diagnostic, as rendered by the compiler.
    CompilerMessage(String),
    Other(String),
}

/// The kind a line gets when it is not a diagnostic, from its start once
/// trimmed; the text kept is the trimmed one, or the whole line for `Other`.
pub open spec fn line_message(trimmed: Seq<char>, line: Seq<char>, m: CargoPackagingMessage) -> bool {
    if has_prefix(trimmed, "Compiling "@) {
        m matches CargoPackagingMessage::Compiling(t) && t@ == trimmed
    } else if has_prefix(trimmed, "Blocking "@) {
        m matches CargoPackagingMessage::Blocking(t) && t@ == trimmed
    } else if has_prefix(trimmed, "Finished "@) {
        m matches CargoPackagingMessage::Finished(t) && t@ == trimmed
    } else if has_prefix(trimmed, "warning:"@) {
        m matches CargoPackagingMessage::Warning(t) && t@ == trimmed
    } else {
        m matches CargoPackagingMessage::Other(t) && t@ == line
    }
}

fn prefixed(s: &Vec<char>, p: &str) -> (r: bool)
    ensures
        r == has_prefix(s@, p@),
{
    starts_with(s, &chars_of(p))
}

impl CargoPackagingMessage {
    /// The message for `line`, given its diagnostic text (if it is one) and
    /// its trimmed form.
    pub fn from_parts(diagnostic: Option<String>, trimmed: String, line: String) -> (r:
        CargoPackagingMessage)
        ensures
            match diagnostic {
                Some(d) => r matches CargoPackagingMessage::CompilerMessage(t) && t == d,
                None => line_message(trimmed@, line@, r),
            },
    {
        match diagnostic {
            Some(d) => CargoPackagingMessage::CompilerMessage(d),
            None => {
                let t = chars_of(trimmed.as_str());
                if prefixed(&t, "Compiling ") {
                    CargoPackagingMessage::Compiling(trimmed)
                } else if prefixed(&t, "Blocking ") {
                    CargoPackagingMessage::Blocking(trimmed)
                } else if prefixed(&t, "Finished ") {
                    CargoPackagingMessage::Finished(trimmed)
                } else if prefixed(&t, "warning:") {
                    CargoPackagingMessage::Warning(trimmed)
                } else {
                    CargoPackagingMessage::Other(line)
                }
            },
        }
    }

    /// The message for a line the compiler printed: a diagnostic when the
    /// line is one, else classified by how its trimmed form starts.
    pub fn from_line(line: String) -> (r: CargoPackagingMessage)
        ensures
            match diagnostic_text(line@) {
                Some(d) => r matches CargoPackagingMessage::CompilerMessage(t) && t@ == d,
                None => line_message(trimmed_start(line@), line@, r),
            },
    {
        let diagnostic = parse_diagnostic(line.as_str());
        let trimmed = trim_start(line.as_str());
        CargoPackagingMessage::from_parts(diagnostic, trimmed, line)
    }

    /// The text printed for the message.
    pub fn text(&self) -> (r: &String)
        ensures
            match self {
                CargoPackagingMessage::Blocking(t) => r == t,
                CargoPackagingMessage::Compiling(t) => r == t,
                CargoPackagingMessage::Warning(t) => r == t,
                CargoPackagingMessage::Finished(t) => r == t,
                CargoPackagingMessage::CompilerMessage(t) => r == t,
                CargoPackagingMessage::Other(t) => r == t,
            },
    {
        match self {
            CargoPackagingMessage::Blocking(t) => t,
            CargoPackagingMessage::Compiling(t) => t,
            CargoPackagingMessage::Warning(t) => t,
            CargoPackagingMessage::Finished(t) => t,
            CargoPackagingMessage::CompilerMessage(t) => t,
            CargoPackagingMessage::Other(t) => t,
        }
    }
}

/// What the build and the dev loop report to the console.
#[derive(Debug)]
pub enum Message {
    CargoPackaging(CargoPackagingMessage),
    CargoBuildFinished,
    Build(String),
    InitBuildFinished,
    /// The paths of a change batch and how its rebuild ended.
    PageReload(Vec<String>, Result<(), String>),
}

/// The kinds of message that printing tells apart.
#[derive(Debug, Clone, Copy, PartialEq, Eq, Structural)]
pub enum Kind {
    Blocking,
    Compiling,
    Warning,
    Finished,
    CompilerMessage,
    Other,
    CargoBuildFinished,
    Build,
    InitBuildFinished,
    PageReload,
}

pub open spec fn kind_of(m: Message) -> Kind {
    match m {
        Message::CargoPackaging(p) => match p {
            CargoPackagingMessage::Blocking(_) => Kind::Blocking,
            CargoPackagingMessage::Compiling(_) => Kind::Compiling,
            CargoPackagingMessage::Warning(_) => Kind::Warning,
            CargoPackagingMessage::Finished(_) => Kind::Finished,
            CargoPackagingMessage::CompilerMessage(_) => Kind::CompilerMessage,
            CargoPackagingMessage::Other(_) => Kind::Other,
        },
        Message::CargoBuildFinished => Kind::CargoBuildFinished,
        Message::Build(_) => Kind::Build,
        Message::InitBuildFinished => Kind::InitBuildFinished,
        Message::PageReload(_, _) => Kind::PageReload,
    }
}

/// The new line overwrites the last one: progress lines replacing each other.
pub open spec fn overlays(last: Kind, next: Kind) -> bool {
    (last == Kind::Blocking && next == Kind::Blocking) || (last == Kind::Blocking && next
        == Kind::Compiling) || (last == Kind::Compiling && next == Kind::Compiling) || (last
        == Kind::Compiling && next == Kind::CompilerMessage) || (last == Kind::Compiling && next
        == Kind::Finished) || (last == Kind::CargoBuildFinished && next == Kind::Finished) || (last
        == Kind::Finished && next == Kind::Build) || (last == Kind::Build && next == Kind::Build)
        || (last == Kind::Build && next == Kind::PageReload)
}

/// The new line starts on a line of its own.
pub open spec fn wraps(last: Kind, next: Kind) -> bool {
    !(next == Kind::CargoBuildFinished || last == Kind::CompilerMessage)
}

impl Message {
    pub fn kind(&self) -> (r: Kind)
        ensures
            r == kind_of(*self),
    {
        match self {
            Message::CargoPackaging(p) => match p {
                CargoPackagingMessage::Blocking(_) => Kind::Blocking,
                CargoPackagingMessage::Compiling(_) => Kind::Compiling,
                CargoPackagingMessage::Warning(_) => Kind::Warning,
                CargoPackagingMessage::Finished(_) => Kind::Finished,
                CargoPackagingMessage::CompilerMessage(_) => Kind::CompilerMessage,
                CargoPackagingMessage::Other(_) => Kind::Other,
            },
            Message::CargoBuildFinished => Kind::CargoBuildFinished,
            Message::Build(_) => Kind::Build,
            Message::InitBuildFinished => Kind::InitBuildFinished,
            Message::PageReload(_, _) => Kind::PageReload,
        }
    }

    /// Whether the message overwrites the line of `last_message`.
    pub fn is_overlay_print(&self, last_message: &Option<Message>) -> (r: bool)
        ensures
            r == (*last_message matches Some(l) && overlays(kind_of(l), kind_of(*self))),
    {
        match last_message {
            None => false,
            Some(l) => {
                let a = l.kind();
                let b = self.kind();
                (a == Kind::Blocking && b == Kind::Blocking) || (a == Kind::Blocking && b
                    == Kind::Compiling) || (a == Kind::Compiling && b == Kind::Compiling) || (a
                    == Kind::Compiling && b == Kind::CompilerMessage) || (a == Kind::Compiling
                    && b == Kind::Finished) || (a == Kind::CargoBuildFinished && b
                    == Kind::Finished) || (a == Kind::Finished && b == Kind::Build) || (a
                    == Kind::Build && b == Kind::Build) || (a == Kind::Build && b
                    == Kind::PageReload)
            },
        }
    }

    /// Whether the message starts a new line after `last_message`.
    pub fn is_wrap(&self, last_message: &Option<Message>) -> (r: bool)
        ensures
            r == (*last_message matches Some(l) && wraps(kind_of(l), kind_of(*self))),
    {
        match last_message {
            None => false,
            Some(l) => !(self.kind() == Kind::CargoBuildFinished || l.kind()
                == Kind::CompilerMessage),
        }
    }
}

/// How a message goes to the console.
#[derive(Debug, Clone, Copy, PartialEq, Eq, Structural)]
pub enum PrintAction {
    /// Nothing is printed: the initial build is over and the next line starts afresh.
    Reset,
    /// Clear the current line and print over it.
    Overlay,
    /// Print on a new line.
    Wrap,
    /// Print where the cursor is.
    Append,
}

/// The console printer's memory of the last message printed.
pub struct PrintMessage {
    pub last_message: Option<Message>,
}

impl PrintMessage {
    pub fn new() -> (r: PrintMessage)
        ensures
            r.last_message is None,
    {
        PrintMessage { last_message: None }
    }

    /// Decides how `message` is printed and remembers it as the last one; the
    /// end of the initial build is not printed and clears the memory.
    pub fn print(&mut self, message: Message) -> (r: PrintAction)
        ensures
            kind_of(message) == Kind::InitBuildFinished ==> r == PrintAction::Reset
                && final(self).last_message is None,
            kind_of(message) != Kind::InitBuildFinished ==> {
                &&& final(self).last_message == Some(message)
                &&& r == if (old(self).last_message matches Some(l) && overlays(
                    kind_of(l),
                    kind_of(message),
                )) {
                    PrintAction::Overlay
                } else if (old(self).last_message matches Some(l) && wraps(
                    kind_of(l),
                    kind_of(message),
                )) {
                    PrintAction::Wrap
                } else {
                    PrintAction::Append
                }
            },
    {
        if message.kind() == Kind::InitBuildFinished {
            self.last_message = None;
            return PrintAction::Reset;
        }
        let action = if message.is_overlay_print(&self.last_message) {
            PrintAction::Overlay
        } else if message.is_wrap(&self.last_message) {
            PrintAction::Wrap
        } else {
            PrintAction::Append
        };
        self.last_message = Some(message);
        action
    }
}

/// A path as shown to the user: with `/` for each `\` on Windows.
pub fn normalize_path(path: &str, windows: bool) -> (r: String)
    ensures
        r@.len() == path@.len(),
        forall|i: int|
            0 <= i < path@.len() ==> #[trigger] r@[i] == if windows && path@[i] == '\\' {
                '/'
            } else {
                path@[i]
            },
{
    let c = chars_of(path);
    let mut out: Vec<char> = Vec::new();
    let mut i: usize = 0;
    while i < c.len()
        invariant
            i <= c@.len(),
            c@ == path@,
            out@.len() == i,
            forall|k: int|
                0 <= k < i ==> #[trigger] out@[k] == if windows && c@[k] == '\\' {
                    '/'
                } else {
                    c@[k]
                },
        decreases c@.len() - i,
    {
        if windows && c[i] == '\\' {
            out.push('/');
        } else {
            out.push(c[i]);
        }
        i = i + 1;
    }
    string_of(&out)
}

} // verus!

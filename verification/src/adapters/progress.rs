//! The display settings of the progress display and the text it shows:
//! status lines, installation status updates, and the look of its bars. The
//! bars themselves are drawn by the terminal front end.

use vstd::prelude::*;

use crate::domain::config::AppConfig;
use crate::domain::installation::InstallationStatus;
use crate::styling::{painted, paint, Paint};
use crate::text::concat2;

verus! {

/// Kinds of progress elements.
#[derive(Debug, Clone, Copy, PartialEq, Eq, Structural)]
pub enum ProgressStyleType {
    Spinner,
    Bar,
    Message,
}

/// What a status update does to its progress bar.
#[derive(Debug, Clone, Copy, PartialEq, Eq, Structural)]
pub enum BarAction {
    /// Finish the bar with the message
    Finish,
    /// Abandon the bar with the message
    Abandon,
    /// Show the message on the bar
    Update,
}

/// The action for an installation status: a finished installation finishes
/// its bar, a failed or skipped one abandons it, any other updates it.
pub open spec fn bar_action_for(status: InstallationStatus) -> BarAction {
    match status {
        InstallationStatus::Complete => BarAction::Finish,
        InstallationStatus::AlreadyInstalled => BarAction::Finish,
        InstallationStatus::Failed(_) => BarAction::Abandon,
        InstallationStatus::Skipped(_) => BarAction::Abandon,
        _ => BarAction::Update,
    }
}

/// A status update for a progress bar: what to do with it, and its message.
#[derive(Debug)]
pub struct BarUpdate {
    pub action: BarAction,
    pub message: String,
}

/// Kinds of status lines.
#[derive(Debug, Clone, Copy, PartialEq, Eq, Structural)]
pub enum MessageType {
    Info,
    Success,
    Error,
    Warning,
}

/// The settings of the progress display.
#[derive(Debug, Clone, Copy)]
pub struct ProgressManager {
    use_colors: bool,
    use_unicode: bool,
    verbose: bool,
}

/// The prefix of a status line.
pub open spec fn status_prefix(use_unicode: bool, t: MessageType) -> Seq<char> {
    match t {
        MessageType::Info => if use_unicode { "ℹ️ "@ } else { "[i] "@ },
        MessageType::Success => if use_unicode { "✅ "@ } else { "[√] "@ },
        MessageType::Error => if use_unicode { "❌ "@ } else { "[x] "@ },
        MessageType::Warning => if use_unicode { "⚠️ "@ } else { "[!] "@ },
    }
}

/// The style of a status line's message.
pub open spec fn status_paint(t: MessageType) -> Paint {
    match t {
        MessageType::Info => Paint::Blue,
        MessageType::Success => Paint::Green,
        MessageType::Error => Paint::RedBold,
        MessageType::Warning => Paint::YellowBold,
    }
}

/// A text followed by its duration in parentheses, when there is one.
pub open spec fn with_duration_text(message: Seq<char>, duration_text: Option<Seq<char>>) -> Seq<char> {
    match duration_text {
        Some(d) => message + " ("@ + d + ")"@,
        None => message,
    }
}

/// The status update shown for an installation status, given its duration
/// already rendered (styles shown when `colored`).
pub open spec fn status_update_text(colored: bool, status: InstallationStatus, duration_text: Option<Seq<char>>) -> Seq<char> {
    match status {
        InstallationStatus::NotStarted => "Waiting to start..."@,
        InstallationStatus::Checking => "Checking if already installed..."@,
        InstallationStatus::NotInstalled => with_duration_text(painted(colored, Paint::Red, "Not installed"@), duration_text),
        InstallationStatus::AlreadyInstalled => with_duration_text(painted(colored, Paint::Green, "Already installed"@), duration_text),
        InstallationStatus::Installing => "Installing..."@,
        InstallationStatus::Complete => with_duration_text(painted(colored, Paint::Green, "Installation complete"@), duration_text),
        InstallationStatus::Failed(reason) =>
            with_duration_text("Installation failed: "@ + painted(colored, Paint::RedBold, reason@), duration_text),
        InstallationStatus::Skipped(reason) =>
            with_duration_text("Installation skipped: "@ + painted(colored, Paint::Yellow, reason@), duration_text),
    }
}

/// The template and progress characters of a kind of progress element.
pub open spec fn style_of(use_colors: bool, use_unicode: bool, t: ProgressStyleType) -> (Seq<char>, Seq<char>) {
    match t {
        ProgressStyleType::Spinner => (
            if use_colors { "{spinner:.cyan} {msg}"@ } else { "{spinner} {msg}"@ },
            if use_unicode { "⠋⠙⠹⠸⠼⠴⠦⠧⠇⠏"@ } else { "-\\|/"@ },
        ),
        ProgressStyleType::Bar => (
            if use_colors { "  {bar:40.cyan/blue} {pos:>3}/{len:3} {msg}"@ } else { "  {bar:40} {pos:>3}/{len:3} {msg}"@ },
            if use_unicode { "█▉▊▋▌▍▎▏ "@ } else { "##--"@ },
        ),
        ProgressStyleType::Message => ("{msg}"@, Seq::empty()),
    }
}

impl ProgressManager {
    /// Settings for the display.
    pub fn new(use_colors: bool, use_unicode: bool, verbose: bool) -> (r: Self)
        ensures
            r.use_colors() == use_colors,
            r.use_unicode() == use_unicode,
            r.verbose() == verbose,
    {
        ProgressManager { use_colors, use_unicode, verbose }
    }

    /// The display settings of an application configuration.
    pub fn from_config(config: &AppConfig) -> (r: Self)
        ensures
            r.use_colors() == config.use_colors,
            r.use_unicode() == config.use_unicode,
            r.verbose() == config.verbose,
    {
        ProgressManager { use_colors: config.use_colors, use_unicode: config.use_unicode, verbose: config.verbose }
    }

    /// Whether colors are used.
    #[verifier::when_used_as_spec(use_colors_spec)]
    pub fn use_colors(&self) -> (r: bool)
        ensures
            r == self.use_colors_spec(),
    {
        self.use_colors
    }

    pub closed spec fn use_colors_spec(&self) -> bool {
        self.use_colors
    }

    /// Whether verbose output is shown.
    #[verifier::when_used_as_spec(verbose_spec)]
    pub fn verbose(&self) -> (r: bool)
        ensures
            r == self.verbose_spec(),
    {
        self.verbose
    }

    pub closed spec fn verbose_spec(&self) -> bool {
        self.verbose
    }

    /// Whether Unicode symbols are used.
    #[verifier::when_used_as_spec(use_unicode_spec)]
    pub fn use_unicode(&self) -> (r: bool)
        ensures
            r == self.use_unicode_spec(),
    {
        self.use_unicode
    }

    pub closed spec fn use_unicode_spec(&self) -> bool {
        self.use_unicode
    }

    /// A status line: the kind's symbol and the message in its style, when `colored`.
    pub fn styled_status_line(&self, message_type: MessageType, message: &str, colored: bool) -> (r: String)
        ensures
            r@ == status_prefix(self.use_unicode(), message_type) + painted(colored, status_paint(message_type), message@),
    {
        let prefix = match message_type {
            MessageType::Info => if self.use_unicode { "ℹ️ " } else { "[i] " },
            MessageType::Success => if self.use_unicode { "✅ " } else { "[√] " },
            MessageType::Error => if self.use_unicode { "❌ " } else { "[x] " },
            MessageType::Warning => if self.use_unicode { "⚠️ " } else { "[!] " },
        };
        let p = match message_type {
            MessageType::Info => Paint::Blue,
            MessageType::Success => Paint::Green,
            MessageType::Error => Paint::RedBold,
            MessageType::Warning => Paint::YellowBold,
        };
        let text = paint(colored, p, message);
        concat2(prefix, text.as_str())
    }

    /// A status line, styled when colors are used and the terminal shows them.
    pub fn status_line(&self, message_type: MessageType, message: &str) -> (r: String)
        ensures
            r@ == status_prefix(self.use_unicode(), message_type) + painted(false, status_paint(message_type), message@)
                || (self.use_colors() && r@ == status_prefix(self.use_unicode(), message_type)
                    + painted(true, status_paint(message_type), message@)),
    {
        let colored = self.use_colors && crate::styling::terminal_styles_enabled();
        self.styled_status_line(message_type, message, colored)
    }

    /// An error line.
    pub fn error(&self, message: &str) -> (r: String)
        ensures
            r@ == status_prefix(self.use_unicode(), MessageType::Error) + painted(false, Paint::RedBold, message@)
                || (self.use_colors() && r@ == status_prefix(self.use_unicode(), MessageType::Error) + painted(true, Paint::RedBold, message@)),
    {
        self.status_line(MessageType::Error, message)
    }

    /// A success line.
    pub fn success(&self, message: &str) -> (r: String)
        ensures
            r@ == status_prefix(self.use_unicode(), MessageType::Success) + painted(false, Paint::Green, message@)
                || (self.use_colors() && r@ == status_prefix(self.use_unicode(), MessageType::Success) + painted(true, Paint::Green, message@)),
    {
        self.status_line(MessageType::Success, message)
    }

    /// An info line.
    pub fn info(&self, message: &str) -> (r: String)
        ensures
            r@ == status_prefix(self.use_unicode(), MessageType::Info) + painted(false, Paint::Blue, message@)
                || (self.use_colors() && r@ == status_prefix(self.use_unicode(), MessageType::Info) + painted(true, Paint::Blue, message@)),
    {
        self.status_line(MessageType::Info, message)
    }

    /// A warning line.
    pub fn warning(&self, message: &str) -> (r: String)
        ensures
            r@ == status_prefix(self.use_unicode(), MessageType::Warning) + painted(false, Paint::YellowBold, message@)
                || (self.use_colors() && r@ == status_prefix(self.use_unicode(), MessageType::Warning) + painted(true, Paint::YellowBold, message@)),
    {
        self.status_line(MessageType::Warning, message)
    }

    /// The status update for an installation status, given its duration
    /// already rendered, styled when `colored`.
    pub fn styled_status_update(&self, status: &InstallationStatus, duration_text: Option<&str>, colored: bool) -> (r: String)
        ensures
            r@ == status_update_text(colored, *status, match duration_text { Some(d) => Some(d@), None => None }),
    {
        let text = match status {
            InstallationStatus::NotStarted => {
                return String::from_str("Waiting to start...");
            },
            InstallationStatus::Checking => {
                return String::from_str("Checking if already installed...");
            },
            InstallationStatus::Installing => {
                return String::from_str("Installing...");
            },
            InstallationStatus::NotInstalled => paint(colored, Paint::Red, "Not installed"),
            InstallationStatus::AlreadyInstalled => paint(colored, Paint::Green, "Already installed"),
            InstallationStatus::Complete => paint(colored, Paint::Green, "Installation complete"),
            InstallationStatus::Failed(reason) => {
                let r = paint(colored, Paint::RedBold, reason.as_str());
                concat2("Installation failed: ", r.as_str())
            },
            InstallationStatus::Skipped(reason) => {
                let r = paint(colored, Paint::Yellow, reason.as_str());
                concat2("Installation skipped: ", r.as_str())
            },
        };
        match duration_text {
            Some(d) => {
                let mut t = text;
                t.append(" (");
                t.append(d);
                t.append(")");
                t
            },
            None => text,
        }
    }

    /// The status update for an installation status, given its duration
    /// already rendered; styled when colors are used and the terminal shows them.
    pub fn format_status_update(&self, status: &InstallationStatus, duration_text: Option<&str>) -> (r: String)
        ensures
            r@ == status_update_text(false, *status, match duration_text { Some(d) => Some(d@), None => None })
                || (self.use_colors() && r@ == status_update_text(true, *status, match duration_text { Some(d) => Some(d@), None => None })),
    {
        let colored = self.use_colors && crate::styling::terminal_styles_enabled();
        self.styled_status_update(status, duration_text, colored)
    }

    /// The template and progress characters of a kind of progress element.
    pub fn progress_style(&self, style_type: ProgressStyleType) -> (r: (&'static str, &'static str))
        ensures
            (r.0@, r.1@) == style_of(self.use_colors(), self.use_unicode(), style_type),
    {
        match style_type {
            ProgressStyleType::Spinner => (
                if self.use_colors { "{spinner:.cyan} {msg}" } else { "{spinner} {msg}" },
                if self.use_unicode { "⠋⠙⠹⠸⠼⠴⠦⠧⠇⠏" } else { "-\\|/" },
            ),
            ProgressStyleType::Bar => (
                if self.use_colors { "  {bar:40.cyan/blue} {pos:>3}/{len:3} {msg}" } else { "  {bar:40} {pos:>3}/{len:3} {msg}" },
                if self.use_unicode { "█▉▊▋▌▍▎▏ " } else { "##--" },
            ),
            ProgressStyleType::Message => {
                proof {
                    reveal_strlit("");
                }
                ("{msg}", "")
            },
        }
    }

    /// A line of command output shown in verbose mode: the kind of output and
    /// its text; nothing when not verbose.
    pub fn output_line(&self, output_type: &str, trimmed_content: &str) -> (r: Option<String>)
        ensures
            self.verbose() ==> (r matches Some(l) && l@ == "  "@ + output_type@ + ": "@ + trimmed_content@),
            !self.verbose() ==> r is None,
    {
        if self.verbose {
            Some(crate::text::concat4("  ", output_type, ": ", trimmed_content))
        } else {
            None
        }
    }
}

} // verus!

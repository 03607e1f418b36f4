//! The interactive progress display: its progress bars, kept by identifier
//! with the message each shows and whether it still runs; the status updates
//! of installations; and the lines shown under the bars. The terminal front
//! end draws each bar as its state here describes it.

use vstd::prelude::*;

use crate::adapters::output_buffer::{trim, trim_str};
use crate::adapters::progress::{bar_action_for, status_update_text, with_duration_text, BarAction, BarUpdate};
use crate::domain::installation::InstallationStatus;
use crate::progress::MessageType;
use crate::styling::{paint, painted, Paint};
use crate::text::{concat2, concat3, concat4, decimal, decimal_u64, str_eq};
use crate::time::{duration_limit, duration_tenths, elapsed_nanos, format_duration_tenths, now};

verus! {

/// Kinds of progress elements.
#[derive(Debug, Clone, Copy, PartialEq, Eq, Structural)]
pub enum ProgressStyleType {
    /// A spinner
    Spinner,
    /// A bar that shows its progress
    Bar,
    /// A message alone
    Message,
}

/// The template and progress characters of a kind of progress element.
pub open spec fn style_of(use_colors: bool, use_unicode: bool, t: ProgressStyleType) -> (Seq<char>, Seq<char>) {
    match t {
        ProgressStyleType::Spinner => (
            if use_colors { "{spinner:.cyan} {msg}"@ } else { "{spinner} {msg}"@ },
            if use_unicode { "⠋⠙⠹⠸⠼⠴⠦⠧⠇⠏"@ } else { "-\\|/"@ },
        ),
        ProgressStyleType::Bar => (
            if use_colors { "  {bar:40.cyan/blue} {pos:>3}/{len:3} {msg}"@ } else { "  {bar:40} {pos:>3}/{len:3} {msg}"@ },
            if use_unicode { "█▉▊▋▌▍▎▏ "@ } else { "##--"@ },
        ),
        ProgressStyleType::Message => ("{msg}"@, Seq::empty()),
    }
}

/// The template and progress characters of a kind of progress element.
pub fn progress_style(use_colors: bool, use_unicode: bool, style_type: ProgressStyleType) -> (r: (&'static str, &'static str))
    ensures
        (r.0@, r.1@) == style_of(use_colors, use_unicode, style_type),
{
    match style_type {
        ProgressStyleType::Spinner => (
            if use_colors { "{spinner:.cyan} {msg}" } else { "{spinner} {msg}" },
            if use_unicode { "⠋⠙⠹⠸⠼⠴⠦⠧⠇⠏" } else { "-\\|/" },
        ),
        ProgressStyleType::Bar => (
            if use_colors { "  {bar:40.cyan/blue} {pos:>3}/{len:3} {msg}" } else { "  {bar:40} {pos:>3}/{len:3} {msg}" },
            if use_unicode { "█▉▊▋▌▍▎▏ " } else { "##--" },
        ),
        ProgressStyleType::Message => {
            proof {
                reveal_strlit("");
            }
            ("{msg}", "")
        },
    }
}

/// Whether a progress bar still runs, or how it ended.
#[derive(Debug, Clone, Copy, PartialEq, Eq, Structural)]
pub enum BarState {
    Running,
    Finished,
    Abandoned,
}

/// A progress bar: the message it shows, its kind, and whether it still runs.
#[derive(Debug)]
pub struct ProgressBarState {
    pub message: String,
    pub style: ProgressStyleType,
    pub state: BarState,
}

/// A progress bar as the contracts speak of it.
pub open spec fn bar_view(b: ProgressBarState) -> (Seq<char>, ProgressStyleType, BarState) {
    (b.message@, b.style, b.state)
}

/// The bar that the first entry with the identifier holds.
pub open spec fn bar_entry(bars: Seq<(Seq<char>, (Seq<char>, ProgressStyleType, BarState))>, id: Seq<char>) -> Option<(Seq<char>, ProgressStyleType, BarState)>
    decreases bars.len(),
{
    if bars.len() == 0 {
        None
    } else if bars[0].0 == id {
        Some(bars[0].1)
    } else {
        bar_entry(bars.drop_first(), id)
    }
}

/// The error for a progress bar that does not exist.
pub open spec fn not_found_text(id: Seq<char>) -> Seq<char> {
    "Progress bar with ID '"@ + id + "' not found"@
}

/// The state of a bar after a status update: a finished installation
/// finishes it, a failed or skipped one abandons it, any other leaves it.
pub open spec fn state_after(status: InstallationStatus, state: BarState) -> BarState {
    match bar_action_for(status) {
        BarAction::Finish => BarState::Finished,
        BarAction::Abandon => BarState::Abandoned,
        BarAction::Update => state,
    }
}

/// A status update ends a bar exactly when the installation has ended: a
/// package that is complete or was already installed finishes it, one that
/// failed or was skipped abandons it, and any status of an installation
/// still under way leaves the bar in the state it was in.
pub proof fn law_status_update_ends_bar(status: InstallationStatus, state: BarState)
    ensures
        (status is Complete || status is AlreadyInstalled) ==> state_after(status, state) == BarState::Finished,
        (status is Failed || status is Skipped) ==> state_after(status, state) == BarState::Abandoned,
        (status is NotStarted || status is Checking || status is NotInstalled || status is Installing)
            ==> state_after(status, state) == state,
{
}

/// An update saying that a package was already installed leaves a bar as an
/// update saying that its installation is complete does, whatever the bar's
/// state was before.
pub proof fn law_already_installed_as_complete(state: BarState)
    ensures
        state_after(InstallationStatus::AlreadyInstalled, state) == state_after(InstallationStatus::Complete, state),
        state_after(InstallationStatus::AlreadyInstalled, state) != BarState::Running,
{
}

/// The symbol of a status line when colors are used.
pub open spec fn color_symbol(t: MessageType) -> Seq<char> {
    match t {
        MessageType::Info => "ℹ️ "@,
        MessageType::Success => "✓ "@,
        MessageType::Error => "✗ "@,
        MessageType::Warning => "⚠️ "@,
        MessageType::Loading => "⌛ "@,
        MessageType::Status => "• "@,
    }
}

/// The symbol of a status line without colors.
pub open spec fn text_symbol(t: MessageType) -> Seq<char> {
    match t {
        MessageType::Info => "[i] "@,
        MessageType::Success => "[√] "@,
        MessageType::Error => "[x] "@,
        MessageType::Warning => "[!] "@,
        MessageType::Loading => "[*] "@,
        MessageType::Status => "[•] "@,
    }
}

/// The color of a status line's message.
pub open spec fn line_paint(t: MessageType) -> Paint {
    match t {
        MessageType::Info => Paint::Blue,
        MessageType::Success => Paint::Green,
        MessageType::Error => Paint::Red,
        MessageType::Warning => Paint::Yellow,
        MessageType::Loading => Paint::Cyan,
        MessageType::Status => Paint::White,
    }
}

/// A status line as shown with colors (styled when `colored`) or without them.
pub open spec fn display_status_line(use_colors: bool, colored: bool, t: MessageType, message: Seq<char>) -> Seq<char> {
    if use_colors {
        color_symbol(t) + painted(colored, line_paint(t), message)
    } else {
        text_symbol(t) + message
    }
}

/// A line of command output: its kind and its trimmed text, indented.
pub open spec fn output_text(output_type: Seq<char>, content: Seq<char>) -> Seq<char> {
    "  "@ + output_type + ": "@ + trim(content)
}

/// Manages the progress bars of the display, by identifier.
pub struct ProgressManager {
    bars: Vec<(String, ProgressBarState)>,
    use_colors: bool,
    use_unicode: bool,
    verbose: bool,
}

impl ProgressManager {
    /// The bars, first created first.
    pub closed spec fn entries(&self) -> Seq<(Seq<char>, (Seq<char>, ProgressStyleType, BarState))> {
        self.bars@.map_values(|e: (String, ProgressBarState)| (e.0@, bar_view(e.1)))
    }

    /// The progress bar with the identifier, if there is one.
    pub open spec fn bar(&self, id: Seq<char>) -> Option<(Seq<char>, ProgressStyleType, BarState)> {
        bar_entry(self.entries(), id)
    }

    /// Whether colors are used.
    pub closed spec fn colors(&self) -> bool {
        self.use_colors
    }

    /// Whether Unicode symbols are used.
    pub closed spec fn unicode(&self) -> bool {
        self.use_unicode
    }

    /// Whether verbose output is shown.
    pub closed spec fn verbose_output(&self) -> bool {
        self.verbose
    }

    /// A display with no progress bars.
    pub fn new(use_colors: bool, use_unicode: bool, verbose: bool) -> (r: Self)
        ensures
            forall|id: Seq<char>| #[trigger] r.bar(id) is None,
            r.colors() == use_colors,
            r.unicode() == use_unicode,
            r.verbose_output() == verbose,
    {
        let r = ProgressManager { bars: Vec::new(), use_colors, use_unicode, verbose };
        assert(r.entries() =~= Seq::empty());
        r
    }

    /// The first bar with the identifier.
    fn position(&self, id: &str) -> (r: Option<usize>)
        ensures
            r matches Some(i) ==> i < self.entries().len() && self.entries()[i as int].0 == id@
                && self.bar(id@) == Some(self.entries()[i as int].1)
                && forall|j: int| 0 <= j < i ==> self.entries()[j].0 != id@,
            r is None ==> self.bar(id@) is None,
    {
        let mut i: usize = 0;
        assert(self.entries().skip(0) =~= self.entries());
        while i < self.bars.len()
            invariant
                i <= self.bars.len(),
                self.entries().len() == self.bars.len(),
                bar_entry(self.entries(), id@) == bar_entry(self.entries().skip(i as int), id@),
                forall|j: int| 0 <= j < i ==> self.entries()[j].0 != id@,
            decreases self.bars.len() - i,
        {
            assert(self.entries().skip(i as int).drop_first() =~= self.entries().skip(i + 1));
            if str_eq(self.bars[i].0.as_str(), id) {
                return Some(i);
            }
            i = i + 1;
        }
        None
    }

    /// Put the bar at position `i`, which holds the identifier's first entry.
    fn replace_at(&mut self, i: usize, bar: ProgressBarState)
        requires
            i < old(self).entries().len(),
            forall|j: int| 0 <= j < i ==> old(self).entries()[j].0 != old(self).entries()[i as int].0,
        ensures
            forall|k: Seq<char>| #[trigger] final(self).bar(k) == if k == old(self).entries()[i as int].0 {
                Some(bar_view(bar))
            } else {
                old(self).bar(k)
            },
            final(self).colors() == old(self).colors(),
            final(self).unicode() == old(self).unicode(),
            final(self).verbose_output() == old(self).verbose_output(),
    {
        let ghost before = self.entries();
        let ghost key = before[i as int].0;
        let id = self.bars[i].0.clone();
        self.bars.set(i, (id, bar));
        proof {
            assert(self.entries() =~= before.update(i as int, (key, bar_view(bar))));
            lemma_bar_update(before, i as int, key, bar_view(bar));
        }
    }

    /// Add a progress bar of the given kind, showing the message (replacing
    /// one with the same identifier); the look of its kind is returned for
    /// the front end.
    pub fn create_progress_bar(&mut self, id: &str, message: &str, style_type: ProgressStyleType) -> (r: (&'static str, &'static str))
        ensures
            (r.0@, r.1@) == style_of(old(self).colors(), old(self).unicode(), style_type),
            forall|k: Seq<char>| #[trigger] final(self).bar(k) == if k == id@ {
                Some((message@, style_type, BarState::Running))
            } else {
                old(self).bar(k)
            },
            final(self).colors() == old(self).colors(),
            final(self).unicode() == old(self).unicode(),
            final(self).verbose_output() == old(self).verbose_output(),
    {
        let bar = ProgressBarState { message: String::from_str(message), style: style_type, state: BarState::Running };
        match self.position(id) {
            Some(i) => {
                self.replace_at(i, bar);
            },
            None => {
                let ghost before = self.entries();
                self.bars.push((String::from_str(id), bar));
                proof {
                    assert(self.entries() =~= before.push((id@, (message@, style_type, BarState::Running))));
                    lemma_bar_push(before, id@, (message@, style_type, BarState::Running));
                }
            },
        }
        progress_style(self.use_colors, self.use_unicode, style_type)
    }

    /// The progress bar with the identifier.
    pub fn get_progress_bar(&self, id: &str) -> (r: Option<ProgressBarState>)
        ensures
            match self.bar(id@) {
                Some(b) => r matches Some(s) && bar_view(s) == b,
                None => r is None,
            },
    {
        match self.position(id) {
            Some(i) => {
                let b = &self.bars[i].1;
                Some(ProgressBarState { message: b.message.clone(), style: b.style, state: b.state })
            },
            None => None,
        }
    }

    /// Show the message on the bar with the identifier.
    pub fn update_progress(&mut self, id: &str, message: &str) -> (r: Result<(), String>)
        ensures
            match old(self).bar(id@) {
                Some(b) => r is Ok && forall|k: Seq<char>| #[trigger] final(self).bar(k) == if k == id@ {
                    Some((message@, b.1, b.2))
                } else {
                    old(self).bar(k)
                },
                None => (r matches Err(m) && m@ == not_found_text(id@)) && forall|k: Seq<char>| #[trigger] final(self).bar(k) == old(self).bar(k),
            },
            final(self).colors() == old(self).colors(),
            final(self).unicode() == old(self).unicode(),
            final(self).verbose_output() == old(self).verbose_output(),
    {
        self.set_bar(id, message, None)
    }

    /// Finish the bar with the identifier, showing the message.
    pub fn complete_progress(&mut self, id: &str, message: &str) -> (r: Result<(), String>)
        ensures
            match old(self).bar(id@) {
                Some(b) => r is Ok && forall|k: Seq<char>| #[trigger] final(self).bar(k) == if k == id@ {
                    Some((message@, b.1, BarState::Finished))
                } else {
                    old(self).bar(k)
                },
                None => (r matches Err(m) && m@ == not_found_text(id@)) && forall|k: Seq<char>| #[trigger] final(self).bar(k) == old(self).bar(k),
            },
            final(self).colors() == old(self).colors(),
            final(self).unicode() == old(self).unicode(),
            final(self).verbose_output() == old(self).verbose_output(),
    {
        self.set_bar(id, message, Some(BarState::Finished))
    }

    /// Show the message on the bar with the identifier, and move it to the
    /// given state (or leave its state).
    fn set_bar(&mut self, id: &str, message: &str, state: Option<BarState>) -> (r: Result<(), String>)
        ensures
            match old(self).bar(id@) {
                Some(b) => r is Ok && forall|k: Seq<char>| #[trigger] final(self).bar(k) == if k == id@ {
                    Some((message@, b.1, match state { Some(s) => s, None => b.2 }))
                } else {
                    old(self).bar(k)
                },
                None => (r matches Err(m) && m@ == not_found_text(id@)) && forall|k: Seq<char>| #[trigger] final(self).bar(k) == old(self).bar(k),
            },
            final(self).colors() == old(self).colors(),
            final(self).unicode() == old(self).unicode(),
            final(self).verbose_output() == old(self).verbose_output(),
    {
        match self.position(id) {
            Some(i) => {
                let style = self.bars[i].1.style;
                let next = match state {
                    Some(s) => s,
                    None => self.bars[i].1.state,
                };
                self.replace_at(i, ProgressBarState { message: String::from_str(message), style, state: next });
                Ok(())
            },
            None => Err(concat3("Progress bar with ID '", id, "' not found")),
        }
    }

    /// The status update of an installation, with the time it took as text,
    /// on the bar with the identifier: a finished installation finishes the
    /// bar, a failed or skipped one abandons it, any other updates it. The
    /// message is styled when colors are used and the terminal shows them.
    pub fn update_from_status(&mut self, id: &str, status: &InstallationStatus, duration_text: Option<&str>) -> (r: Result<(), String>)
        ensures
            match old(self).bar(id@) {
                Some(b) => r is Ok && (final(self).bar(id@) matches Some(nb) && nb.1 == b.1 && nb.2 == state_after(*status, b.2)
                    && ((*status is Complete || *status is AlreadyInstalled) ==> nb.2 == BarState::Finished)
                    && ((*status is Failed || *status is Skipped) ==> nb.2 == BarState::Abandoned)
                    && (nb.0 == status_update_text(false, *status, match duration_text { Some(d) => Some(d@), None => None })
                        || (old(self).colors() && nb.0 == status_update_text(true, *status, match duration_text { Some(d) => Some(d@), None => None }))))
                    && forall|k: Seq<char>| k != id@ ==> #[trigger] final(self).bar(k) == old(self).bar(k),
                None => (r matches Err(m) && m@ == not_found_text(id@)) && forall|k: Seq<char>| #[trigger] final(self).bar(k) == old(self).bar(k),
            },
            final(self).colors() == old(self).colors(),
            final(self).unicode() == old(self).unicode(),
            final(self).verbose_output() == old(self).verbose_output(),
    {
        let settings = crate::adapters::progress::ProgressManager::new(self.use_colors, self.use_unicode, self.verbose);
        let message = settings.format_status_update(status, duration_text);
        let state = match status {
            InstallationStatus::Complete => Some(BarState::Finished),
            InstallationStatus::AlreadyInstalled => Some(BarState::Finished),
            InstallationStatus::Failed(_) => Some(BarState::Abandoned),
            InstallationStatus::Skipped(_) => Some(BarState::Abandoned),
            _ => None,
        };
        self.set_bar(id, message.as_str(), state)
    }

    /// A spinner for a nested task, with the identifier `task-` and the
    /// given number, showing the message; its display is returned.
    pub fn create_task_progress_manager(&mut self, task_number: u64, message: &str) -> (r: ProgressDisplay)
        ensures
            r.id()@ == "task-"@ + decimal(task_number as nat),
            r.verbose_output() == old(self).verbose_output(),
            forall|k: Seq<char>| #[trigger] final(self).bar(k) == if k == r.id()@ {
                Some((message@, ProgressStyleType::Spinner, BarState::Running))
            } else {
                old(self).bar(k)
            },
            final(self).colors() == old(self).colors(),
            final(self).unicode() == old(self).unicode(),
            final(self).verbose_output() == old(self).verbose_output(),
    {
        let n = decimal_u64(task_number);
        let id = concat2("task-", n.as_str());
        self.create_progress_bar(id.as_str(), message, ProgressStyleType::Spinner);
        ProgressDisplay::new(id, self.verbose)
    }

    /// A message followed by its duration, as text, in parentheses when there is one.
    pub fn format_status_with_duration(&self, message: &str, duration_text: Option<&str>) -> (r: String)
        ensures
            r@ == with_duration_text(message@, match duration_text { Some(d) => Some(d@), None => None }),
    {
        match duration_text {
            Some(d) => concat4(message, " (", d, ")"),
            None => String::from_str(message),
        }
    }

    /// A line to show under the bar with the identifier: the line itself in
    /// verbose mode, nothing otherwise; a missing bar is an error.
    pub fn add_progress_line(&self, id: &str, line: &str) -> (r: Result<Option<String>, String>)
        ensures
            self.bar(id@) is None ==> (r matches Err(m) && m@ == not_found_text(id@)),
            self.bar(id@) is Some && self.verbose_output() ==> (r matches Ok(Some(l)) && l@ == line@),
            self.bar(id@) is Some && !self.verbose_output() ==> r matches Ok(None),
    {
        match self.position(id) {
            Some(_) => {
                if self.verbose {
                    Ok(Some(String::from_str(line)))
                } else {
                    Ok(None)
                }
            },
            None => Err(concat3("Progress bar with ID '", id, "' not found")),
        }
    }

    /// A line of command output to show under the bar with the identifier, in
    /// verbose mode: its kind and its trimmed text; nothing otherwise.
    pub fn add_command_output(&self, id: &str, output_type: &str, content: &str) -> (r: Result<Option<String>, String>)
        ensures
            !self.verbose_output() ==> r matches Ok(None),
            self.verbose_output() && self.bar(id@) is None ==> (r matches Err(m) && m@ == not_found_text(id@)),
            self.verbose_output() && self.bar(id@) is Some ==> (r matches Ok(Some(l)) && l@ == output_text(output_type@, content@)),
    {
        if self.verbose {
            let trimmed = trim_str(content);
            let line = concat4("  ", output_type, ": ", trimmed.as_str());
            self.add_progress_line(id, line.as_str())
        } else {
            Ok(None)
        }
    }

    /// A status line: with colors, the kind's symbol and the message in its
    /// color (when the terminal shows it); without, a text symbol and the message.
    pub fn status_line(&self, message_type: MessageType, message: &str) -> (r: String)
        ensures
            r@ == display_status_line(self.colors(), false, message_type, message@)
                || r@ == display_status_line(self.colors(), true, message_type, message@),
    {
        if self.use_colors {
            let symbol = match message_type {
                MessageType::Info => "ℹ️ ",
                MessageType::Success => "✓ ",
                MessageType::Error => "✗ ",
                MessageType::Warning => "⚠️ ",
                MessageType::Loading => "⌛ ",
                MessageType::Status => "• ",
            };
            let p = match message_type {
                MessageType::Info => Paint::Blue,
                MessageType::Success => Paint::Green,
                MessageType::Error => Paint::Red,
                MessageType::Warning => Paint::Yellow,
                MessageType::Loading => Paint::Cyan,
                MessageType::Status => Paint::White,
            };
            let colored = crate::styling::terminal_styles_enabled();
            let text = paint(colored, p, message);
            concat2(symbol, text.as_str())
        } else {
            let symbol = match message_type {
                MessageType::Info => "[i] ",
                MessageType::Success => "[√] ",
                MessageType::Error => "[x] ",
                MessageType::Warning => "[!] ",
                MessageType::Loading => "[*] ",
                MessageType::Status => "[•] ",
            };
            concat2(symbol, message)
        }
    }

    /// Whether colors are used.
    pub fn use_colors(&self) -> (r: bool)
        ensures
            r == self.colors(),
    {
        self.use_colors
    }
}

/// Replacing the first entry for an identifier changes only what that identifier finds.
proof fn lemma_bar_update(
    e: Seq<(Seq<char>, (Seq<char>, ProgressStyleType, BarState))>,
    i: int,
    key: Seq<char>,
    v: (Seq<char>, ProgressStyleType, BarState),
)
    requires
        0 <= i < e.len(),
        e[i].0 == key,
        forall|j: int| 0 <= j < i ==> e[j].0 != key,
    ensures
        forall|k: Seq<char>| #[trigger] bar_entry(e.update(i, (key, v)), k) == if k == key { Some(v) } else { bar_entry(e, k) },
    decreases i,
{
    let u = e.update(i, (key, v));
    if i == 0 {
        assert(u.drop_first() =~= e.drop_first());
        assert forall|k: Seq<char>| #[trigger] bar_entry(u, k) == if k == key { Some(v) } else { bar_entry(e, k) } by {
            assert(u[0] == (key, v));
        }
    } else {
        lemma_bar_update(e.drop_first(), i - 1, key, v);
        assert(u.drop_first() =~= e.drop_first().update(i - 1, (key, v)));
        assert(u[0] == e[0]);
        assert forall|k: Seq<char>| #[trigger] bar_entry(u, k) == if k == key { Some(v) } else { bar_entry(e, k) } by {
            assert(bar_entry(e.drop_first().update(i - 1, (key, v)), k) == if k == key { Some(v) } else { bar_entry(e.drop_first(), k) });
        }
    }
}

/// An identifier with no entry, added at the end, finds its bar; the others are unchanged.
proof fn lemma_bar_push(e: Seq<(Seq<char>, (Seq<char>, ProgressStyleType, BarState))>, key: Seq<char>, v: (Seq<char>, ProgressStyleType, BarState))
    requires
        bar_entry(e, key) is None,
    ensures
        forall|k: Seq<char>| #[trigger] bar_entry(e.push((key, v)), k) == if k == key { Some(v) } else { bar_entry(e, k) },
    decreases e.len(),
{
    let u = e.push((key, v));
    if e.len() > 0 {
        lemma_bar_push(e.drop_first(), key, v);
        assert(u.drop_first() =~= e.drop_first().push((key, v)));
        assert(u[0] == e[0]);
        assert forall|k: Seq<char>| #[trigger] bar_entry(u, k) == if k == key { Some(v) } else { bar_entry(e, k) } by {
            assert(bar_entry(e.drop_first().push((key, v)), k) == if k == key { Some(v) } else { bar_entry(e.drop_first(), k) });
        }
    } else {
        assert(u.drop_first() =~= e);
        assert forall|k: Seq<char>| #[trigger] bar_entry(u, k) == if k == key { Some(v) } else { bar_entry(e, k) } by {
            assert(u[0] == (key, v));
            assert(bar_entry(u.drop_first(), k) is None);
        }
    }
}

/// The progress of one task: the bar that shows it, when it started, and
/// whether its output is shown. What it does to its bar is handed to the
/// front end, which draws the bar.
pub struct ProgressDisplay {
    id: String,
    start_time: std::time::Instant,
    verbose: bool,
}

impl ProgressDisplay {
    /// The identifier of the task's bar.
    pub closed spec fn id(&self) -> String {
        self.id
    }

    /// Whether the task's output is shown.
    pub closed spec fn verbose_output(&self) -> bool {
        self.verbose
    }

    /// The display of a task shown on the bar with the identifier, started now.
    pub fn new(id: String, verbose: bool) -> (r: Self)
        ensures
            r.id() == id,
            r.verbose_output() == verbose,
    {
        ProgressDisplay { id, start_time: now(), verbose }
    }

    /// The identifier of the task's bar.
    pub fn bar_id(&self) -> (r: &str)
        ensures
            r@ == self.id()@,
    {
        self.id.as_str()
    }

    /// Show the message on the bar.
    pub fn update(&self, message: &str) -> (r: BarUpdate)
        ensures
            r.action == BarAction::Update,
            r.message@ == message@,
    {
        BarUpdate { action: BarAction::Update, message: String::from_str(message) }
    }

    /// The message followed by the time since the start, in parentheses.
    fn timed(&self, message: &str) -> (r: String)
        ensures
            exists|n: u128| n < duration_limit() && r@ == message@ + " ("@ + #[trigger] duration_tenths(n) + ")"@,
    {
        let n = elapsed_nanos(&self.start_time);
        let d = format_duration_tenths(n);
        concat4(message, " (", d.as_str(), ")")
    }

    /// Finish the bar with the message and the time the task took.
    pub fn success(&self, message: &str) -> (r: BarUpdate)
        ensures
            r.action == BarAction::Finish,
            exists|n: u128| n < duration_limit() && r.message@ == message@ + " ("@ + #[trigger] duration_tenths(n) + ")"@,
    {
        BarUpdate { action: BarAction::Finish, message: self.timed(message) }
    }

    /// Abandon the bar with the message and the time the task took.
    pub fn error(&self, message: &str) -> (r: BarUpdate)
        ensures
            r.action == BarAction::Abandon,
            exists|n: u128| n < duration_limit() && r.message@ == message@ + " ("@ + #[trigger] duration_tenths(n) + ")"@,
    {
        BarUpdate { action: BarAction::Abandon, message: self.timed(message) }
    }

    /// A line to show under the bar: the line in verbose mode, nothing otherwise.
    pub fn add_line(&self, text: &str) -> (r: Option<String>)
        ensures
            self.verbose_output() ==> (r matches Some(l) && l@ == text@),
            !self.verbose_output() ==> r is None,
    {
        if self.verbose {
            Some(String::from_str(text))
        } else {
            None
        }
    }

    /// A line of command output to show under the bar in verbose mode: its
    /// kind and its trimmed text; nothing otherwise.
    pub fn add_output(&self, output_type: &str, content: &str) -> (r: Option<String>)
        ensures
            self.verbose_output() ==> (r matches Some(l) && l@ == output_text(output_type@, content@)),
            !self.verbose_output() ==> r is None,
    {
        if self.verbose {
            let trimmed = trim_str(content);
            Some(concat4("  ", output_type, ": ", trimmed.as_str()))
        } else {
            None
        }
    }

    /// The time since the start, in nanoseconds.
    pub fn elapsed(&self) -> (r: u128)
        ensures
            r < duration_limit(),
    {
        elapsed_nanos(&self.start_time)
    }
}

} // verus!

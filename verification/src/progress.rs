//! Messages shown to the user: their kinds, how the console renders them
//! (indentation, an emoji or its text fallback, styled text, context and
//! duration), and a reporter that builds and renders them.

use vstd::prelude::*;

use crate::styling::{painted, paint, Paint};
use crate::text::concat2;

verus! {

/// The kinds of messages.
#[derive(Debug, Clone, Copy, PartialEq, Eq, Structural)]
pub enum MessageType {
    Info,
    Success,
    Error,
    Warning,
    Loading,
    Status,
}

/// A message to be displayed to the user. The duration is in nanoseconds.
#[derive(Debug, Clone, PartialEq)]
pub struct Message {
    pub message_type: MessageType,
    pub text: String,
    pub context: Option<String>,
    pub duration: Option<u128>,
    pub indent_level: usize,
}

/// The emoji of a kind of message, or its text fallback.
pub open spec fn emoji_text(use_emoji: bool, t: MessageType) -> Seq<char> {
    if use_emoji {
        match t {
            MessageType::Info => "ℹ️ "@,
            MessageType::Success => "✅ "@,
            MessageType::Error => "❌ "@,
            MessageType::Warning => "⚠️ "@,
            MessageType::Loading => "⌛ "@,
            MessageType::Status => "• "@,
        }
    } else {
        match t {
            MessageType::Info => "[i] "@,
            MessageType::Success => "[√] "@,
            MessageType::Error => "[x] "@,
            MessageType::Warning => "[!] "@,
            MessageType::Loading => "[*] "@,
            MessageType::Status => "[*] "@,
        }
    }
}

/// A message's text in the style of its kind, when styles are shown.
pub open spec fn styled_text(colored: bool, text: Seq<char>, t: MessageType) -> Seq<char> {
    match t {
        MessageType::Info => painted(colored, Paint::Blue, text),
        MessageType::Success => painted(colored, Paint::Green, text),
        MessageType::Error => painted(colored, Paint::RedBold, text),
        MessageType::Warning => painted(colored, Paint::YellowBold, text),
        MessageType::Loading => painted(colored, Paint::Cyan, text),
        MessageType::Status => text,
    }
}

/// Two spaces per indentation level.
pub open spec fn indentation(level: nat) -> Seq<char>
    decreases level,
{
    if level == 0 {
        Seq::empty()
    } else {
        indentation((level - 1) as nat) + "  "@
    }
}

/// A rendered message, given its rendered duration when it has one.
pub open spec fn rendered_message(use_emoji: bool, colored: bool, m: Message, duration_text: Option<Seq<char>>) -> Seq<char> {
    indentation(m.indent_level as nat) + emoji_text(use_emoji, m.message_type) + styled_text(colored, m.text@, m.message_type)
        + match m.context {
        Some(c) => ": "@ + c@,
        None => Seq::empty(),
    } + match duration_text {
        Some(d) => " ("@ + d + ")"@,
        None => Seq::empty(),
    }
}

/// Renders messages for the console, with emoji or text fallbacks and,
/// where the terminal shows them, colors.
#[derive(Debug, Clone, Copy)]
pub struct ConsoleRenderer {
    pub use_emoji: bool,
    pub use_colors: bool,
}

impl ConsoleRenderer {
    /// A renderer with the given settings.
    pub fn new(use_emoji: bool, use_colors: bool) -> (r: Self)
        ensures
            r.use_emoji == use_emoji,
            r.use_colors == use_colors,
    {
        ConsoleRenderer { use_emoji, use_colors }
    }

    /// The emoji (or its text fallback) for a kind of message.
    pub fn get_emoji(&self, message_type: &MessageType) -> (r: &'static str)
        ensures
            r@ == emoji_text(self.use_emoji, *message_type),
    {
        if self.use_emoji {
            match message_type {
                MessageType::Info => "ℹ️ ",
                MessageType::Success => "✅ ",
                MessageType::Error => "❌ ",
                MessageType::Warning => "⚠️ ",
                MessageType::Loading => "⌛ ",
                MessageType::Status => "• ",
            }
        } else {
            match message_type {
                MessageType::Info => "[i] ",
                MessageType::Success => "[√] ",
                MessageType::Error => "[x] ",
                MessageType::Warning => "[!] ",
                MessageType::Loading => "[*] ",
                MessageType::Status => "[*] ",
            }
        }
    }

    /// The text in the style of its kind, when `colored`.
    pub fn style_text(&self, text: &str, message_type: &MessageType, colored: bool) -> (r: String)
        ensures
            r@ == styled_text(colored, text@, *message_type),
    {
        match message_type {
            MessageType::Info => paint(colored, Paint::Blue, text),
            MessageType::Success => paint(colored, Paint::Green, text),
            MessageType::Error => paint(colored, Paint::RedBold, text),
            MessageType::Warning => paint(colored, Paint::YellowBold, text),
            MessageType::Loading => paint(colored, Paint::Cyan, text),
            MessageType::Status => String::from_str(text),
        }
    }

    /// Render a message, given its rendered duration, styled when `colored`.
    pub fn render_styled(&self, message: &Message, duration_text: Option<&str>, colored: bool) -> (r: String)
        ensures
            r@ == rendered_message(self.use_emoji, colored, *message, match duration_text { Some(d) => Some(d@), None => None }),
    {
        let mut out = String::new();
        let mut k: usize = 0;
        while k < message.indent_level
            invariant
                k <= message.indent_level,
                out@ == indentation(k as nat),
            decreases message.indent_level - k,
        {
            out.append("  ");
            k = k + 1;
        }
        let ghost indent = out@;
        out.append(self.get_emoji(&message.message_type));
        let text = self.style_text(message.text.as_str(), &message.message_type, colored);
        out.append(text.as_str());
        let ghost head = out@;
        match &message.context {
            Some(c) => {
                out.append(": ");
                out.append(c.as_str());
            },
            None => {},
        }
        let ghost with_context = out@;
        match duration_text {
            Some(d) => {
                out.append(" (");
                out.append(d);
                out.append(")");
            },
            None => {},
        }
        assert(out@ =~= rendered_message(self.use_emoji, colored, *message, match duration_text { Some(d) => Some(d@), None => None }));
        out
    }

    /// Render a message, given its rendered duration; colored when the
    /// renderer uses colors and the terminal shows them.
    pub fn render_with(&self, message: &Message, duration_text: Option<&str>) -> (r: String)
        ensures
            r@ == rendered_message(self.use_emoji, false, *message, match duration_text { Some(d) => Some(d@), None => None })
                || (self.use_colors && r@ == rendered_message(self.use_emoji, true, *message, match duration_text { Some(d) => Some(d@), None => None })),
    {
        let colored = self.use_colors && crate::styling::terminal_styles_enabled();
        self.render_styled(message, duration_text, colored)
    }
}

/// Renders messages. Implementations decide the rendering.
pub trait MessageRenderer {
    /// Render a message as a string.
    fn render(&self, message: &Message) -> String;

    /// Render an error, given its message, as a string.
    fn render_error(&self, error: &str) -> String;

    /// Render a duration (in nanoseconds) as a string.
    fn render_duration(&self, duration: u128) -> String;
}

/// A message of the given kind with only its text.
pub open spec fn plain_message(t: MessageType, text: Seq<char>, m: Message) -> bool {
    m.message_type == t && m.text@ == text && m.context is None && m.duration is None && m.indent_level == 0
}

/// The message that reports an error.
pub fn error_report(error: &str) -> (r: Message)
    ensures
        plain_message(MessageType::Error, "Error: "@ + error@, r),
{
    Message { message_type: MessageType::Error, text: concat2("Error: ", error), context: None, duration: None, indent_level: 0 }
}

/// An optional text by its view.
pub open spec fn opt_view(o: Option<&str>) -> Option<Seq<char>> {
    match o {
        Some(s) => Some(s@),
        None => None,
    }
}

/// A status message with the text, context, duration and indentation.
pub open spec fn status_message_view(m: Message, text: Seq<char>, context: Option<Seq<char>>, duration: Option<u128>, indent_level: usize) -> bool {
    &&& m.message_type == MessageType::Status
    &&& m.text@ == text
    &&& match m.context {
        Some(c) => context == Some(c@),
        None => context is None,
    }
    &&& m.duration == duration
    &&& m.indent_level == indent_level
}

/// Builds messages and renders them with a renderer.
pub struct ProgressReporter<R: MessageRenderer> {
    renderer: R,
}

impl<R: MessageRenderer> ProgressReporter<R> {
    /// A reporter using the renderer.
    pub fn new(renderer: R) -> (r: Self)
        ensures
            r.renderer() == renderer,
    {
        ProgressReporter { renderer }
    }

    /// The renderer.
    pub closed spec fn renderer(&self) -> R {
        self.renderer
    }

    /// A message of the given kind with only its text.
    pub fn plain(message_type: MessageType, text: &str) -> (r: Message)
        ensures
            plain_message(message_type, text@, r),
    {
        Message { message_type, text: String::from_str(text), context: None, duration: None, indent_level: 0 }
    }

    /// Render an info message.
    pub fn info(&self, message: &str) -> (r: String)
        ensures
            exists|m: Message| #[trigger] plain_message(MessageType::Info, message@, m) && call_ensures(R::render, (&self.renderer(), &m), r),
    {
        self.renderer.render(&Self::plain(MessageType::Info, message))
    }

    /// Render a success message.
    pub fn success(&self, message: &str) -> (r: String)
        ensures
            exists|m: Message| #[trigger] plain_message(MessageType::Success, message@, m) && call_ensures(R::render, (&self.renderer(), &m), r),
    {
        self.renderer.render(&Self::plain(MessageType::Success, message))
    }

    /// Render an error message.
    pub fn error(&self, message: &str) -> (r: String)
        ensures
            exists|m: Message| #[trigger] plain_message(MessageType::Error, message@, m) && call_ensures(R::render, (&self.renderer(), &m), r),
    {
        self.renderer.render(&Self::plain(MessageType::Error, message))
    }

    /// Render a warning message.
    pub fn warning(&self, message: &str) -> (r: String)
        ensures
            exists|m: Message| #[trigger] plain_message(MessageType::Warning, message@, m) && call_ensures(R::render, (&self.renderer(), &m), r),
    {
        self.renderer.render(&Self::plain(MessageType::Warning, message))
    }

    /// Render a loading message.
    pub fn loading(&self, message: &str) -> (r: String)
        ensures
            exists|m: Message| #[trigger] plain_message(MessageType::Loading, message@, m) && call_ensures(R::render, (&self.renderer(), &m), r),
    {
        self.renderer.render(&Self::plain(MessageType::Loading, message))
    }

    /// The status message with optional context and duration (in nanoseconds), indented.
    pub fn status_message(message: &str, context: Option<&str>, duration: Option<u128>, indent_level: usize) -> (r: Message)
        ensures
            r.message_type == MessageType::Status,
            r.text@ == message@,
            r.context matches Some(c) ==> context matches Some(x) && c@ == x@,
            r.context is None <==> context is None,
            r.duration == duration,
            r.indent_level == indent_level,
            status_message_view(r, message@, opt_view(context), duration, indent_level),
    {
        let context = match context {
            Some(c) => Some(String::from_str(c)),
            None => None,
        };
        Message { message_type: MessageType::Status, text: String::from_str(message), context, duration, indent_level }
    }

    /// Render a status message with optional context and duration (in nanoseconds).
    pub fn status(&self, message: &str, context: Option<&str>, duration: Option<u128>, indent_level: usize) -> (r: String)
        ensures
            exists|m: Message| #[trigger] status_message_view(m, message@, opt_view(context), duration, indent_level)
                && call_ensures(R::render, (&self.renderer(), &m), r),
    {
        self.renderer.render(&Self::status_message(message, context, duration, indent_level))
    }

    /// Render an error, given its message.
    pub fn render_error(&self, error: &str) -> (r: String)
        ensures
            call_ensures(R::render_error, (&self.renderer(), error), r),
    {
        self.renderer.render_error(error)
    }
}

impl ConsoleRenderer {
    /// Render an error, given its message: an error message reading `Error: ` and the message.
    pub fn render_error_text(&self, error: &str) -> (r: String)
        ensures
            exists|m: Message| plain_message(MessageType::Error, "Error: "@ + error@, m)
                && (r@ == rendered_message(self.use_emoji, false, m, None)
                    || (self.use_colors && r@ == rendered_message(self.use_emoji, true, m, None))),
    {
        let m = error_report(error);
        self.render_with(&m, None)
    }
}

} // verus!

use std::time::Duration;

use selfie::progress::{ConsoleRenderer, Message, MessageRenderer, MessageType, ProgressReporter};

/// A console renderer whose durations are written with floating point, as
/// the terminal front end writes them.
struct PlainRenderer(ConsoleRenderer);

fn duration_words(nanos: u128) -> String {
    let duration = Duration::from_nanos(nanos as u64);
    let total_seconds = duration.as_secs_f64();
    if total_seconds < 0.1 {
        format!("{}ms", duration.as_millis())
    } else if total_seconds < 1.0 {
        format!("{:.2}s", total_seconds)
    } else if total_seconds < 60.0 {
        format!("{:.1}s", total_seconds)
    } else {
        let minutes = (total_seconds / 60.0).floor();
        let seconds = total_seconds % 60.0;
        format!("{}m {:.1}s", minutes, seconds)
    }
}

impl MessageRenderer for PlainRenderer {
    fn render(&self, message: &Message) -> String {
        let duration = message.duration.map(duration_words);
        self.0.render_styled(message, duration.as_deref(), false)
    }

    fn render_error(&self, error: &str) -> String {
        self.0.render_error_text(error)
    }

    fn render_duration(&self, duration: u128) -> String {
        duration_words(duration)
    }
}

#[test]
fn test_console_renderer_with_duration() {
    let renderer = PlainRenderer(ConsoleRenderer::new(false, false));

    let message = Message {
        message_type: MessageType::Success,
        text: "Installation complete".to_string(),
        context: None,
        duration: Some(Duration::from_secs(45).as_nanos()),
        indent_level: 0,
    };

    let rendered = renderer.render(&message);
    assert_eq!(rendered, "[√] Installation complete (45.0s)");
}

#[test]
fn test_console_renderer_with_everything() {
    let renderer = PlainRenderer(ConsoleRenderer::new(false, false));

    let message = Message {
        message_type: MessageType::Error,
        text: "Installation failed".to_string(),
        context: Some("Package not found".to_string()),
        duration: Some(Duration::from_millis(200).as_nanos()),
        indent_level: 1,
    };

    let rendered = renderer.render(&message);
    assert_eq!(rendered, "  [x] Installation failed: Package not found (0.20s)");
}

#[test]
fn test_progress_reporter() {
    let reporter = ProgressReporter::new(PlainRenderer(ConsoleRenderer::new(false, false)));

    assert_eq!(reporter.info("Information"), "[i] Information");
    assert_eq!(reporter.success("Success message"), "[√] Success message");
    assert_eq!(reporter.error("Error occurred"), "[x] Error occurred");
    assert_eq!(reporter.warning("Warning message"), "[!] Warning message");
    assert_eq!(reporter.loading("Loading..."), "[*] Loading...");

    let status = reporter.status("Installation status", Some("All good"), Some(Duration::from_secs(5).as_nanos()), 0);
    assert_eq!(status, "[*] Installation status: All good (5.0s)");

    let nested_status = reporter.status("Dependency installation", Some("In progress"), None, 2);
    assert_eq!(nested_status, "    [*] Dependency installation: In progress");
}

#[test]
fn test_console_renderer_without_emoji_colors() {
    let renderer = ConsoleRenderer::new(false, false);

    let message = Message {
        message_type: MessageType::Success,
        text: "Test message".to_string(),
        context: None,
        duration: None,
        indent_level: 0,
    };

    let rendered = renderer.render_with(&message, None);
    assert_eq!(rendered, "[√] Test message");
}

#[test]
fn test_console_renderer_with_context() {
    let renderer = ConsoleRenderer::new(false, false);

    let message = Message {
        message_type: MessageType::Info,
        text: "Package".to_string(),
        context: Some("Details about the package".to_string()),
        duration: None,
        indent_level: 0,
    };

    let rendered = renderer.render_with(&message, None);
    assert_eq!(rendered, "[i] Package: Details about the package");
}

#[test]
fn test_console_renderer_with_indentation() {
    let renderer = ConsoleRenderer::new(false, false);

    let message = Message {
        message_type: MessageType::Status,
        text: "Nested message".to_string(),
        context: None,
        duration: None,
        indent_level: 2,
    };

    let rendered = renderer.render_with(&message, None);
    assert_eq!(rendered, "    [*] Nested message");
}

#[test]
fn test_render_error() {
    let reporter = ProgressReporter::new(PlainRenderer(ConsoleRenderer::new(false, false)));

    let error = std::io::Error::new(std::io::ErrorKind::NotFound, "File not found");
    assert_eq!(
        reporter.render_error(&error.to_string()),
        "[x] Error: File not found"
    );
}

#[test]
fn progress_reporter_kinds_without_durations() {
    let reporter = ProgressReporter::new(PlainRenderer(ConsoleRenderer::new(false, false)));

    assert_eq!(reporter.info("Information"), "[i] Information");
    assert_eq!(reporter.success("Success message"), "[√] Success message");
    assert_eq!(reporter.error("Error occurred"), "[x] Error occurred");
    assert_eq!(reporter.warning("Warning message"), "[!] Warning message");
    assert_eq!(reporter.loading("Loading..."), "[*] Loading...");

    let nested_status = reporter.status("Dependency installation", Some("In progress"), None, 2);
    assert_eq!(nested_status, "    [*] Dependency installation: In progress");
}

#[test]
fn progress_renderer_with_duration_text_and_emoji() {
    let renderer = ConsoleRenderer::new(true, false);
    let message = Message {
        message_type: MessageType::Error,
        text: "Installation failed".to_string(),
        context: Some("Package not found".to_string()),
        duration: None,
        indent_level: 1,
    };
    assert_eq!(
        renderer.render_with(&message, Some("0.20s")),
        "  ❌ Installation failed: Package not found (0.20s)"
    );
    assert_eq!(renderer.get_emoji(&MessageType::Status), "• ");
}

#[test]
fn progress_styles_when_colored() {
    let renderer = ConsoleRenderer::new(false, true);
    assert_eq!(
        renderer.style_text("ok", &MessageType::Success, true),
        "\u{1b}[32mok\u{1b}[0m"
    );
    assert_eq!(
        renderer.style_text("bad", &MessageType::Error, true),
        "\u{1b}[31m\u{1b}[1mbad\u{1b}[0m"
    );
    assert_eq!(renderer.style_text("plain", &MessageType::Status, true), "plain");
    assert_eq!(renderer.style_text("ok", &MessageType::Success, false), "ok");
}

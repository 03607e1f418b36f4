use std::time::Duration;

use selfie::adapters::progress::{BarAction, MessageType as LineType, ProgressManager as DisplaySettings};
use selfie::domain::config::AppConfigBuilder;
use selfie::domain::installation::InstallationStatus;
use selfie::progress::MessageType;
use selfie::progress_display::{BarState, ProgressDisplay, ProgressManager, ProgressStyleType};
use selfie::time::format_duration_tenths;

fn tenths(d: Duration) -> String {
    format_duration_tenths(d.as_nanos())
}

#[test]
fn test_progress_manager_from_config() {
    let config = AppConfigBuilder::default()
        .environment("test-env")
        .package_directory("/test/path")
        .verbose(true)
        .use_colors(false)
        .use_unicode(true)
        .build();

    let manager = DisplaySettings::from_config(&config);

    assert!(manager.verbose());
    assert!(!manager.use_colors());
    assert!(manager.use_unicode());
}

#[test]
fn test_format_status_update() {
    let manager = DisplaySettings::new(false, false, true);

    let checking = manager.format_status_update(&InstallationStatus::Checking, None);
    assert_eq!(checking, "Checking if already installed...");

    let d = tenths(Duration::from_millis(200));
    let not_installed = manager.format_status_update(&InstallationStatus::NotInstalled, Some(&d));
    assert_eq!(not_installed, "Not installed (200.0ms)");

    let d = tenths(Duration::from_secs(1));
    let already_installed = manager.format_status_update(&InstallationStatus::AlreadyInstalled, Some(&d));
    assert_eq!(already_installed, "Already installed (1.0s)");

    let failed = manager.format_status_update(&InstallationStatus::Failed("test error".to_string()), None);
    assert_eq!(failed, "Installation failed: test error");
}

#[test]
fn test_status_line() {
    let manager = DisplaySettings::new(false, false, true);

    let info = manager.status_line(LineType::Info, "Info message");
    assert!(info.contains("[i]"));
    assert!(info.contains("Info message"));

    let success = manager.status_line(LineType::Success, "Success message");
    assert!(success.contains("[√]"));
    assert!(success.contains("Success message"));

    let error = manager.status_line(LineType::Error, "Error message");
    assert!(error.contains("[x]"));
    assert!(error.contains("Error message"));

    let warning = manager.status_line(LineType::Warning, "Warning message");
    assert!(warning.contains("[!]"));
    assert!(warning.contains("Warning message"));
}

#[test]
fn test_create_progress_bar() {
    let mut manager = ProgressManager::new(false, false, true);
    let _style = manager.create_progress_bar("test", "Test Progress", ProgressStyleType::Spinner);
    assert!(manager.get_progress_bar("test").is_some());
}

#[test]
fn test_update_progress() {
    let mut manager = ProgressManager::new(false, false, true);
    manager.create_progress_bar("test", "Test Progress", ProgressStyleType::Spinner);

    assert!(manager.update_progress("test", "Updated Message").is_ok());
    assert!(manager.update_progress("nonexistent", "Message").is_err());
}

#[test]
fn test_complete_progress() {
    let mut manager = ProgressManager::new(false, false, true);
    manager.create_progress_bar("test", "Test Progress", ProgressStyleType::Spinner);

    assert!(manager.complete_progress("test", "Completed").is_ok());
    assert!(manager.complete_progress("nonexistent", "Completed").is_err());
}

#[test]
fn test_update_from_status() {
    let mut manager = ProgressManager::new(false, false, true);
    manager.create_progress_bar("test", "Test Progress", ProgressStyleType::Spinner);

    assert!(manager.update_from_status("test", &InstallationStatus::Checking, None).is_ok());
    let d = tenths(Duration::from_secs(5));
    assert!(manager.update_from_status("test", &InstallationStatus::Complete, Some(&d)).is_ok());
    assert!(manager.update_from_status("nonexistent", &InstallationStatus::Complete, None).is_err());
}

#[test]
fn test_format_status_with_duration() {
    let manager = ProgressManager::new(false, false, true);

    let without_duration = manager.format_status_with_duration("Test Message", None);
    assert_eq!(without_duration, "Test Message");

    let d = tenths(Duration::from_secs(5));
    let with_duration = manager.format_status_with_duration("Test Message", Some(&d));
    assert!(with_duration.contains("Test Message"));
    assert!(with_duration.contains("5.0s"));
}

#[test]
fn progress_display_test_progress_display() {
    let mut manager = ProgressManager::new(false, false, true);
    manager.create_progress_bar("test", "Test Progress", ProgressStyleType::Spinner);
    let display = ProgressDisplay::new("test".to_string(), true);

    let update = display.update("Working...");
    assert_eq!(update.message, "Working...");
    while display.elapsed() < 10_000_000 {}

    let elapsed = Duration::from_nanos(display.elapsed() as u64);
    assert!(elapsed.as_millis() > 0);

    let done = display.success("Done!");
    assert_eq!(done.action, BarAction::Finish);
    assert!(done.message.starts_with("Done! ("));
}

#[test]
fn test_status_line_formatting() {
    let manager = ProgressManager::new(false, false, true);

    let info_line = manager.status_line(MessageType::Info, "Info message");
    assert!(info_line.contains("[i]"));
    assert!(info_line.contains("Info message"));

    let success_line = manager.status_line(MessageType::Success, "Success message");
    assert!(success_line.contains("[√]"));
    assert!(success_line.contains("Success message"));

    let error_line = manager.status_line(MessageType::Error, "Error message");
    assert!(error_line.contains("[x]"));
    assert!(error_line.contains("Error message"));
}

#[test]
fn bar_states_follow_status_updates() {
    let mut manager = ProgressManager::new(false, false, false);
    let style = manager.create_progress_bar("a", "Start", ProgressStyleType::Bar);
    assert_eq!(style, ("  {bar:40} {pos:>3}/{len:3} {msg}", "##--"));
    manager.create_progress_bar("b", "Other", ProgressStyleType::Message);

    manager.update_from_status("a", &InstallationStatus::Installing, None).unwrap();
    let a = manager.get_progress_bar("a").unwrap();
    assert_eq!(a.message, "Installing...");
    assert_eq!(a.state, BarState::Running);

    manager.update_from_status("a", &InstallationStatus::Failed("boom".to_string()), Some("1.5s")).unwrap();
    let a = manager.get_progress_bar("a").unwrap();
    assert_eq!(a.message, "Installation failed: boom (1.5s)");
    assert_eq!(a.state, BarState::Abandoned);

    let b = manager.get_progress_bar("b").unwrap();
    assert_eq!(b.message, "Other");
    assert_eq!(b.state, BarState::Running);

    assert_eq!(
        manager.update_progress("c", "x").unwrap_err(),
        "Progress bar with ID 'c' not found"
    );
}

#[test]
fn complete_progress_finishes_the_bar() {
    let mut manager = ProgressManager::new(true, true, false);
    manager.create_progress_bar("t", "Working", ProgressStyleType::Spinner);
    manager.complete_progress("t", "Done").unwrap();
    let t = manager.get_progress_bar("t").unwrap();
    assert_eq!(t.message, "Done");
    assert_eq!(t.state, BarState::Finished);
    assert_eq!(t.style, ProgressStyleType::Spinner);
}

#[test]
fn task_progress_manager_registers_a_spinner() {
    let mut manager = ProgressManager::new(false, false, true);
    let display = manager.create_task_progress_manager(42, "Nested");
    assert_eq!(display.bar_id(), "task-42");
    let bar = manager.get_progress_bar("task-42").unwrap();
    assert_eq!(bar.message, "Nested");
    assert_eq!(bar.style, ProgressStyleType::Spinner);
}

#[test]
fn progress_lines_only_in_verbose_mode() {
    let mut quiet = ProgressManager::new(false, false, false);
    quiet.create_progress_bar("t", "x", ProgressStyleType::Spinner);
    assert_eq!(quiet.add_progress_line("t", "line").unwrap(), None);
    assert_eq!(quiet.add_command_output("t", "stdout", "  out  ").unwrap(), None);

    let mut loud = ProgressManager::new(false, false, true);
    loud.create_progress_bar("t", "x", ProgressStyleType::Spinner);
    assert_eq!(loud.add_progress_line("t", "line").unwrap(), Some("line".to_string()));
    assert_eq!(
        loud.add_command_output("t", "stdout", "  out \n").unwrap(),
        Some("  stdout: out".to_string())
    );
    assert!(loud.add_progress_line("u", "line").is_err());

    let display = ProgressDisplay::new("t".to_string(), true);
    assert_eq!(display.add_output("stderr", "\t err "), Some("  stderr: err".to_string()));
    assert_eq!(display.add_line("plain"), Some("plain".to_string()));
    assert_eq!(ProgressDisplay::new("t".to_string(), false).add_line("plain"), None);
}

#[test]
fn status_lines_without_colors_use_text_symbols() {
    let manager = ProgressManager::new(false, true, false);
    assert_eq!(manager.status_line(MessageType::Warning, "w"), "[!] w");
    assert_eq!(manager.status_line(MessageType::Loading, "l"), "[*] l");
    assert_eq!(manager.status_line(MessageType::Status, "s"), "[•] s");
}

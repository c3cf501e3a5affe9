use siri_billing_app::relay::{backend_line, relay_level, LogLevel, ProcessEventKind};
use siri_billing_app::updates::{
    add_progress, check_error, check_status, install_error, installed_status,
};

#[test]
fn no_update_status_is_stable() {
    assert_eq!(check_status(None), "No update available.");
}

#[test]
fn update_available_names_version() {
    assert_eq!(check_status(Some("1.4.2")), "Update available: 1.4.2");
}

#[test]
fn install_and_error_texts() {
    assert_eq!(
        installed_status(),
        "Update installed successfully. Please restart the application."
    );
    assert_eq!(check_error("timeout"), "Failed to check for updates: timeout");
    assert_eq!(install_error("bad signature"), "Failed to install update: bad signature");
}

#[test]
fn progress_adds_and_saturates() {
    assert_eq!(add_progress(100, 24), 124);
    assert_eq!(add_progress(u64::MAX - 1, 5), u64::MAX);
}

#[test]
fn relay_levels() {
    assert_eq!(relay_level(ProcessEventKind::Stdout), Some(LogLevel::Info));
    assert_eq!(relay_level(ProcessEventKind::Stderr), Some(LogLevel::Error));
    assert_eq!(relay_level(ProcessEventKind::Error), Some(LogLevel::Error));
    assert_eq!(relay_level(ProcessEventKind::Terminated), Some(LogLevel::Warn));
    assert_eq!(relay_level(ProcessEventKind::Other), None);
}

#[test]
fn backend_lines_are_trimmed() {
    assert_eq!(backend_line("  server started on :8080\r\n"), "server started on :8080");
    assert_eq!(backend_line("\n"), "");
}

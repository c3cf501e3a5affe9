use siri_billing_app::logs::{
    log_extension, logs_to_delete, should_delete, DirEntryInfo, LOG_DIR_NAME, LOG_FILE_NAME,
    MAX_LOG_FILE_BYTES,
};

fn entry(name: &str, is_file: bool) -> DirEntryInfo {
    DirEntryInfo { name: name.to_string(), is_file }
}

#[test]
fn log_extension_follows_path_rules() {
    assert!(log_extension("app.log"));
    assert!(log_extension("a.b.log"));
    assert!(!log_extension(".log"));
    assert!(!log_extension("log"));
    assert!(!log_extension("app.LOG"));
    assert!(!log_extension("app.log.1"));
    assert!(!log_extension("app.txt"));
    assert!(!log_extension(""));
}

#[test]
fn only_regular_log_files_are_deleted() {
    let entries = vec![
        entry("siri-billing-app.log", true),
        entry("notes.txt", true),
        entry("archive.log", false),
        entry(".log", true),
        entry("old.log", true),
    ];
    assert_eq!(logs_to_delete(Some(&entries)), vec!["siri-billing-app.log", "old.log"]);
    assert!(!should_delete(&entries[2]));
}

#[test]
fn missing_directory_deletes_nothing() {
    assert!(logs_to_delete(None).is_empty());
    assert!(logs_to_delete(Some(&Vec::new())).is_empty());
}

#[test]
fn log_settings() {
    assert_eq!(LOG_DIR_NAME, "logs");
    assert_eq!(LOG_FILE_NAME, "siri-billing-app.log");
    assert_eq!(MAX_LOG_FILE_BYTES, 10_000_000);
}

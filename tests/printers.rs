use siri_billing_app::printers::{
    print_outcome, print_script, printers_from_fallback, printers_from_primary, quote,
    require_printing, PrinterError,
};
use siri_billing_app::terminate::Platform;
use siri_billing_app::text::{parse_listing, parse_table, trim_text};

#[test]
fn missing_primary_tool_falls_back_to_legacy_listing() {
    assert!(printers_from_primary(None).is_none());
    let out = "Name                 \r\r\nHP LaserJet  \r\r\n\r\r\nMicrosoft Print to PDF  \r\r\n\r\r\n";
    assert_eq!(
        printers_from_fallback(Some(out)).unwrap(),
        vec!["HP LaserJet", "Microsoft Print to PDF"]
    );
}

#[test]
fn primary_listing_is_used_when_it_has_names() {
    let out = "Office\r\n  Label Printer \r\n\r\n";
    assert_eq!(printers_from_primary(Some(out)).unwrap(), vec!["Office", "Label Printer"]);
    assert!(printers_from_primary(Some("\r\n  \r\n")).is_none());
}

#[test]
fn both_queries_failing_is_an_error() {
    assert_eq!(printers_from_fallback(None), Err(PrinterError::QueryFailed));
    assert_eq!(PrinterError::QueryFailed.message(), "Failed to list printers");
}

#[test]
fn printing_needs_windows() {
    assert_eq!(require_printing(Platform::Unix), Err(PrinterError::Unsupported));
    assert_eq!(require_printing(Platform::Windows), Ok(()));
    assert_eq!(
        PrinterError::Unsupported.message(),
        "Printing is only supported on Windows"
    );
}

#[test]
fn print_pipeline_failure_is_reported() {
    assert_eq!(print_outcome(false), Err(PrinterError::PrintFailed));
    assert_eq!(print_outcome(true), Ok(()));
    assert_eq!(PrinterError::PrintFailed.message(), "Print command failed");
}

#[test]
fn print_script_quotes_path_and_printer() {
    assert_eq!(
        print_script("C:\\tmp\\job.txt", None),
        "Get-Content -Path 'C:\\tmp\\job.txt' | Out-Printer"
    );
    assert_eq!(
        print_script("C:\\tmp\\job.txt", Some("Bob's printer")),
        "Get-Content -Path 'C:\\tmp\\job.txt' | Out-Printer -Name 'Bob''s printer'"
    );
    assert_eq!(quote(""), "''");
}

#[test]
fn listing_edge_cases() {
    assert!(parse_listing("").is_empty());
    assert_eq!(parse_listing("one"), vec!["one"]);
    assert!(parse_table("Name\r\n").is_empty());
    assert!(parse_table("").is_empty());
    assert_eq!(trim_text(" \t x y \r\n"), "x y");
}

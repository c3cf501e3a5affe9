//! Status and error texts of the update commands.

use vstd::prelude::*;

verus! {

/// The status text of an update check.
pub open spec fn check_status_text(available: Option<Seq<char>>) -> Seq<char> {
    match available {
        Some(v) => "Update available: "@ + v,
        None => "No update available."@,
    }
}

/// The status text once an update was installed.
pub open spec fn installed_text() -> Seq<char> {
    "Update installed successfully. Please restart the application."@
}

/// The error text of a failed check.
pub open spec fn check_error_text(detail: Seq<char>) -> Seq<char> {
    "Failed to check for updates: "@ + detail
}

/// The error text of a failed download or install.
pub open spec fn install_error_text(detail: Seq<char>) -> Seq<char> {
    "Failed to install update: "@ + detail
}

/// The status of an update check: the version on offer, if any.
pub fn check_status(available: Option<&str>) -> (r: String)
    ensures
        r@ == check_status_text(
            match available {
                Some(v) => Some(v@),
                None => None,
            },
        ),
{
    match available {
        Some(v) => String::from_str("Update available: ").concat(v),
        None => String::from_str("No update available."),
    }
}

/// The status once the update is installed and awaits a restart.
pub fn installed_status() -> (r: String)
    ensures
        r@ == installed_text(),
{
    String::from_str("Update installed successfully. Please restart the application.")
}

/// The error of a failed check, from the updater's own description.
pub fn check_error(detail: &str) -> (r: String)
    ensures
        r@ == check_error_text(detail@),
{
    String::from_str("Failed to check for updates: ").concat(detail)
}

/// The error of a failed download or install, from the updater's own description.
pub fn install_error(detail: &str) -> (r: String)
    ensures
        r@ == install_error_text(detail@),
{
    String::from_str("Failed to install update: ").concat(detail)
}

/// The byte count after one more chunk arrived; it stops at the largest `u64`.
pub fn add_progress(downloaded: u64, chunk: usize) -> (r: u64)
    ensures
        r as int == if downloaded + chunk <= u64::MAX {
            downloaded + chunk
        } else {
            u64::MAX as int
        },
{
    if chunk as u64 > u64::MAX - downloaded {
        u64::MAX
    } else {
        downloaded + chunk as u64
    }
}

} // verus!

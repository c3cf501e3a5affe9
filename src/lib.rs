//! Verified core of a desktop shell that supervises a backend sidecar process:
//! its lifecycle and shutdown, the commands that end it, log cleanup, printer
//! listings and update status texts.
use vstd::prelude::*;

pub mod lifecycle;
pub mod logs;
pub mod printers;
pub mod relay;
pub mod terminate;
pub mod text;
pub mod updates;

verus! {

} // verus!

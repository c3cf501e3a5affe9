//! Printer listings and the print pipeline.

use vstd::prelude::*;
use crate::terminate::Platform;
use crate::text::{listed_names, parse_listing, parse_table, table_names, views};

verus! {

/// The shell that runs the printer queries and the print pipeline.
pub const POWERSHELL: &'static str = "powershell";

/// The primary printer query, one name per line.
pub const PRIMARY_QUERY: &'static str = "Get-Printer | Select-Object -ExpandProperty Name";

/// The legacy tool of the fallback query, and its arguments; it prints a
/// `Name` header above one name per line.
pub const FALLBACK_PROGRAM: &'static str = "wmic";

pub const FALLBACK_ARGS: [&'static str; 3] = ["printer", "get", "name"];

/// Why a printer operation failed.
#[derive(Clone, Copy, Debug, PartialEq, Eq, Structural)]
pub enum PrinterError {
    /// Printing is offered on Windows only.
    Unsupported,
    /// Neither query could list the printers.
    QueryFailed,
    /// The print pipeline reported failure.
    PrintFailed,
}

impl PrinterError {
    /// The text shown to the user.
    pub fn message(&self) -> (r: String)
        ensures
            r@ == printer_error_text(*self),
    {
        match self {
            PrinterError::Unsupported => String::from_str("Printing is only supported on Windows"),
            PrinterError::QueryFailed => String::from_str("Failed to list printers"),
            PrinterError::PrintFailed => String::from_str("Print command failed"),
        }
    }
}

/// The text of each error.
pub open spec fn printer_error_text(e: PrinterError) -> Seq<char> {
    match e {
        PrinterError::Unsupported => "Printing is only supported on Windows"@,
        PrinterError::QueryFailed => "Failed to list printers"@,
        PrinterError::PrintFailed => "Print command failed"@,
    }
}

/// Fails on every platform but Windows.
pub fn require_printing(platform: Platform) -> (r: Result<(), PrinterError>)
    ensures
        r is Ok <==> platform == Platform::Windows,
        r is Err ==> r == Err::<(), PrinterError>(PrinterError::Unsupported),
{
    match platform {
        Platform::Windows => Ok(()),
        Platform::Unix => Err(PrinterError::Unsupported),
    }
}

/// What the primary query settles: its names when it ran and listed some;
/// `None` when the fallback query must be asked. `output` is the query's
/// standard output, `None` when the tool is missing or reported failure.
pub fn printers_from_primary(output: Option<&str>) -> (r: Option<Vec<String>>)
    ensures
        match output {
            Some(text) => if listed_names(text@).len() > 0 {
                r is Some && views(r->0@) == listed_names(text@)
            } else {
                r is None
            },
            None => r is None,
        },
{
    match output {
        Some(text) => {
            let names = parse_listing(text);
            if names.len() > 0 {
                Some(names)
            } else {
                None
            }
        },
        None => None,
    }
}

/// The outcome of the fallback query: its names below the header, or an
/// error when it too failed.
pub fn printers_from_fallback(output: Option<&str>) -> (r: Result<Vec<String>, PrinterError>)
    ensures
        match output {
            Some(text) => r is Ok && views(r->Ok_0@) == table_names(text@),
            None => r == Err::<Vec<String>, PrinterError>(PrinterError::QueryFailed),
        },
{
    match output {
        Some(text) => Ok(parse_table(text)),
        None => Err(PrinterError::QueryFailed),
    }
}

/// `s` with each single quote doubled, as a single-quoted shell literal needs.
pub open spec fn escape_quotes(s: Seq<char>) -> Seq<char>
    decreases s.len(),
{
    if s.len() == 0 {
        Seq::empty()
    } else if s.last() == '\'' {
        escape_quotes(s.drop_last()) + seq!['\'', '\'']
    } else {
        escape_quotes(s.drop_last()).push(s.last())
    }
}

/// `s` as a single-quoted literal.
pub open spec fn quoted(s: Seq<char>) -> Seq<char> {
    seq!['\''] + escape_quotes(s) + seq!['\'']
}

/// The pipeline that prints the file at `path`, on `printer` or else on the default printer.
pub open spec fn print_script_text(path: Seq<char>, printer: Option<Seq<char>>) -> Seq<char> {
    "Get-Content -Path "@ + quoted(path) + " | Out-Printer"@ + match printer {
        Some(p) => " -Name "@ + quoted(p),
        None => Seq::empty(),
    }
}

/// `s` as a single-quoted literal.
pub fn quote(s: &str) -> (r: String)
    ensures
        r@ == quoted(s@),
{
    proof {
        reveal_strlit("'");
        assert("'"@ =~= seq!['\'']);
    }
    let n = s.unicode_len();
    let mut out = String::from_str("'");
    let mut i: usize = 0;
    while i < n
        invariant
            n == s@.len(),
            i <= n,
            out@ == seq!['\''] + escape_quotes(s@.take(i as int)),
        decreases n - i,
    {
        let ghost before = out@;
        let c = s.get_char(i);
        proof {
            reveal_strlit("'");
            assert("'"@ =~= seq!['\'']);
        }
        if c == '\'' {
            out.append("'");
            out.append("'");
        } else {
            out.append(s.substring_char(i, i + 1));
        }
        proof {
            let next = s@.take(i as int + 1);
            assert(next.drop_last() =~= s@.take(i as int));
            assert(next.last() == c);
            if c != '\'' {
                assert(s@.subrange(i as int, i as int + 1) =~= seq![c]);
                assert(escape_quotes(next) == escape_quotes(s@.take(i as int)).push(c));
            } else {
                assert(escape_quotes(next) == escape_quotes(s@.take(i as int)) + seq!['\'', '\'']);
            }
            if c != '\'' {
                assert(out@ =~= before.push(c));
            } else {
                assert(out@ =~= before + seq!['\'', '\'']);
            }
            assert(out@ =~= seq!['\''] + escape_quotes(next));
        }
        i = i + 1;
    }
    out.append("'");
    proof {
        assert(s@.take(n as int) =~= s@);
        assert(out@ =~= quoted(s@));
    }
    out
}

/// The pipeline that prints the file at `path`, on `printer` or else on the default printer.
pub fn print_script(path: &str, printer: Option<&str>) -> (r: String)
    ensures
        r@ == print_script_text(
            path@,
            match printer {
                Some(p) => Some(p@),
                None => None,
            },
        ),
{
    let mut script = String::from_str("Get-Content -Path ");
    let qp = quote(path);
    script.append(qp.as_str());
    script.append(" | Out-Printer");
    match printer {
        Some(p) => {
            script.append(" -Name ");
            let qn = quote(p);
            script.append(qn.as_str());
        },
        None => {},
    }
    proof {
        assert(script@ =~= print_script_text(
            path@,
            match printer {
                Some(p) => Some(p@),
                None => None,
            },
        ));
    }
    script
}

/// The outcome of a print job, from whether the pipeline reported success.
pub fn print_outcome(succeeded: bool) -> (r: Result<(), PrinterError>)
    ensures
        r is Ok <==> succeeded,
        !succeeded ==> r == Err::<(), PrinterError>(PrinterError::PrintFailed),
{
    if succeeded {
        Ok(())
    } else {
        Err(PrinterError::PrintFailed)
    }
}

} // verus!

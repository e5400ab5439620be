//! The lines that tell the user what is being checked and how it ended.
//!
//! Each line comes without a newline at its end. The line before the probe
//! and the line after it go to standard output.

use crate::args::{CheckRequest, RequestView};
use crate::number::{decimal_text, format_decimal};
use crate::probe::{CheckOutcome, OutcomeView};
use vstd::prelude::*;
use vstd::string::*;

verus! {

/// The line printed before the first attempt: the host and port as asked for,
/// the first address that the lookup gave, and the timeout of each attempt.
pub open spec fn spec_checking_line(request: RequestView, primary_ip: Seq<char>) -> Seq<char> {
    "Checking "@ + request.hostname + ":"@ + decimal_text(request.port as nat) + " ("@ + primary_ip
        + ") (timeout: "@ + decimal_text(request.timeout_secs as nat) + "s)"@
}

/// The line printed after the probe. A success names the address that
/// accepted the connection; a failure names the first address that the lookup
/// gave, and the reason.
pub open spec fn spec_outcome_line(
    request: RequestView,
    primary_ip: Seq<char>,
    outcome: OutcomeView,
) -> Seq<char> {
    match outcome {
        OutcomeView::Succeeded { address } => "\u{2713} Connection to "@ + request.hostname + ":"@
            + decimal_text(request.port as nat) + " ("@ + address.ip
            + ") succeeded - port is open"@,
        OutcomeView::Failed { reason } => "\u{2717} Connection to "@ + request.hostname + ":"@
            + decimal_text(request.port as nat) + " ("@ + primary_ip + ") failed - "@ + reason,
    }
}

/// The line to print before the first attempt, for example
/// `Checking localhost:22 (127.0.0.1) (timeout: 1s)`.
pub fn checking_line(request: &CheckRequest, primary_ip: &str) -> (line: String)
    ensures
        line@ == spec_checking_line(request@, primary_ip@),
{
    let port = format_decimal(request.port() as u64);
    let timeout = format_decimal(request.timeout_secs());
    let mut line = String::from_str("Checking ");
    line.append(request.hostname());
    line.append(":");
    line.append(port.as_str());
    line.append(" (");
    line.append(primary_ip);
    line.append(") (timeout: ");
    line.append(timeout.as_str());
    line.append("s)");
    line
}

/// The line to print after the probe.
pub fn outcome_line(request: &CheckRequest, primary_ip: &str, outcome: &CheckOutcome) -> (line:
    String)
    ensures
        line@ == spec_outcome_line(request@, primary_ip@, outcome@),
{
    let port = format_decimal(request.port() as u64);
    match outcome {
        CheckOutcome::Succeeded { address } => {
            let mut line = String::from_str("\u{2713} Connection to ");
            line.append(request.hostname());
            line.append(":");
            line.append(port.as_str());
            line.append(" (");
            line.append(address.ip.as_str());
            line.append(") succeeded - port is open");
            line
        },
        CheckOutcome::Failed { reason } => {
            let mut line = String::from_str("\u{2717} Connection to ");
            line.append(request.hostname());
            line.append(":");
            line.append(port.as_str());
            line.append(" (");
            line.append(primary_ip);
            line.append(") failed - ");
            line.append(reason.as_str());
            line
        },
    }
}

} // verus!

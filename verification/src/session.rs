//! One invocation from its argument list to its exit code, as a sequence of
//! steps between which the caller does the outside work.
//!
//! Each [`Step`] holds what to print and what to do next: look the hostname up,
//! try to connect to one address, or exit. The caller prints, does what is
//! asked, and hands the result to the state that asked for it, which returns
//! the next step. The states are separate types, so a result can only be given
//! to the state that waits for it.
//!
//! ```text
//! start --> Resolve --> Connect --> ... --> Connect --> Exit
//!   |          |
//!   +-> Exit   +-> Exit
//! ```

use crate::args::{
    parse_args, spec_parse_args, spec_usage_report, usage_report, CheckRequest, RequestView,
};
use crate::number::{decimal_text, format_decimal};
use crate::probe::{
    attempt_view, begin, spec_attempted, ProbeStep, ProbeStepView, Prober, ProberView,
    EXIT_FAILURE,
};
use crate::report::{checking_line, outcome_line, spec_checking_line, spec_outcome_line};
use crate::resolve::{
    accept_lookup, lookup_view, spec_accept_lookup, spec_resolution_message, AddressView,
    ResolvedAddress,
};
use vstd::prelude::*;
use vstd::string::*;

verus! {

/// What a step prints: nothing, or one text on one of the two streams. The
/// text has no newline at its end; the caller ends the line.
#[derive(Debug, PartialEq, Eq)]
pub enum Output {
    Quiet,
    Stdout(String),
    Stderr(String),
}

/// An [`Output`] as a mathematical value.
pub enum OutputView {
    Quiet,
    Stdout(Seq<char>),
    Stderr(Seq<char>),
}

impl View for Output {
    type V = OutputView;

    open spec fn view(&self) -> OutputView {
        match self {
            Output::Quiet => OutputView::Quiet,
            Output::Stdout(text) => OutputView::Stdout(text@),
            Output::Stderr(text) => OutputView::Stderr(text@),
        }
    }
}

/// An invocation whose arguments were accepted and whose hostname is to be
/// looked up.
#[derive(Debug)]
pub struct Resolving {
    request: CheckRequest,
}

impl View for Resolving {
    type V = RequestView;

    closed spec fn view(&self) -> RequestView {
        self.request@
    }
}

/// An invocation with a connection attempt outstanding.
#[derive(Debug)]
pub struct Connecting {
    request: CheckRequest,
    primary_ip: String,
    prober: Prober,
}

/// A [`Connecting`] as a mathematical value: the request, the first address
/// that the lookup gave, and the state of the probe.
pub struct ConnectingView {
    pub request: RequestView,
    pub primary_ip: Seq<char>,
    pub prober: ProberView,
}

impl View for Connecting {
    type V = ConnectingView;

    closed spec fn view(&self) -> ConnectingView {
        ConnectingView {
            request: self.request@,
            primary_ip: self.primary_ip@,
            prober: self.prober@,
        }
    }
}

/// What the caller is to do after printing a step's output.
#[derive(Debug)]
pub enum Next {
    /// Look up the hostname, then call [`Resolving::resolved`].
    Resolve(Resolving),
    /// Try to connect, then call [`Connecting::attempted`].
    Connect(Connecting),
    /// Exit with this code.
    Exit(i32),
}

/// A [`Next`] as a mathematical value.
pub enum NextView {
    Resolve(RequestView),
    Connect(ConnectingView),
    Exit(i32),
}

impl View for Next {
    type V = NextView;

    open spec fn view(&self) -> NextView {
        match self {
            Next::Resolve(resolving) => NextView::Resolve(resolving@),
            Next::Connect(connecting) => NextView::Connect(connecting@),
            Next::Exit(code) => NextView::Exit(*code),
        }
    }
}

/// One step of an invocation: first print `output`, then do `next`.
#[derive(Debug)]
pub struct Step {
    pub output: Output,
    pub next: Next,
}

/// A [`Step`] as a mathematical value.
pub struct StepView {
    pub output: OutputView,
    pub next: NextView,
}

impl View for Step {
    type V = StepView;

    open spec fn view(&self) -> StepView {
        StepView { output: self.output@, next: self.next@ }
    }
}

/// What to hand to the resolver: the hostname, a colon, and the port in
/// decimal, as in `example.org:443`.
pub open spec fn spec_lookup_query(request: RequestView) -> Seq<char> {
    request.hostname + ":"@ + decimal_text(request.port as nat)
}

/// The first step. Valid arguments lead to the lookup, in silence. Anything
/// else ends the invocation with exit code 1 and the usage report on standard
/// error, before any lookup.
pub open spec fn spec_start(args: Seq<Seq<char>>) -> StepView {
    match spec_parse_args(args) {
        Ok(request) => StepView { output: OutputView::Quiet, next: NextView::Resolve(request) },
        Err(error) => StepView {
            output: OutputView::Stderr(spec_usage_report(error, args)),
            next: NextView::Exit(EXIT_FAILURE),
        },
    }
}

/// The step after the lookup. With at least one address, the line that tells
/// what is being checked goes to standard output and the first address is to
/// be tried. A failed or empty lookup ends the invocation with exit code 1 and
/// its message on standard error, before any connection attempt.
pub open spec fn spec_resolved(
    request: RequestView,
    lookup: Result<Seq<AddressView>, Seq<char>>,
) -> StepView {
    match spec_accept_lookup(request.hostname, lookup) {
        Ok(addrs) => StepView {
            output: OutputView::Stdout(spec_checking_line(request, addrs[0].ip)),
            next: NextView::Connect(
                ConnectingView {
                    request,
                    primary_ip: addrs[0].ip,
                    prober: ProberView { addrs, timeout_secs: request.timeout_secs, next: 0 },
                },
            ),
        },
        Err(error) => StepView {
            output: OutputView::Stderr(spec_resolution_message(error)),
            next: NextView::Exit(EXIT_FAILURE),
        },
    }
}

/// The step after a connection attempt. While the probe goes on, the next
/// address is to be tried, in silence. When it is over, the line that tells
/// how it ended goes to standard output, and the exit code is 0 for a success
/// and 1 for a failure.
pub open spec fn spec_connected(
    connecting: ConnectingView,
    result: Result<(), Seq<char>>,
) -> StepView {
    match spec_attempted(connecting.prober, result) {
        ProbeStepView::Attempt(prober) => StepView {
            output: OutputView::Quiet,
            next: NextView::Connect(ConnectingView { prober, ..connecting }),
        },
        ProbeStepView::Done(outcome) => StepView {
            output: OutputView::Stdout(
                spec_outcome_line(connecting.request, connecting.primary_ip, outcome),
            ),
            next: NextView::Exit(outcome.exit_code()),
        },
    }
}

/// Begins an invocation with the argument list `args`, program name first.
///
/// Where the arguments are valid, nothing is printed and the hostname is to be
/// looked up. Where they are not, the step prints the usage report on standard
/// error and exits with code 1.
pub fn start(args: &Vec<String>) -> (step: Step)
    ensures
        step@ == spec_start(args.deep_view()),
{
    match parse_args(args) {
        Ok(request) => Step { output: Output::Quiet, next: Next::Resolve(Resolving { request }) },
        Err(error) => Step {
            output: Output::Stderr(usage_report(error, args)),
            next: Next::Exit(EXIT_FAILURE),
        },
    }
}

impl Resolving {
    /// The hostname to look up.
    pub fn hostname(&self) -> (r: &str)
        ensures
            r@ == self@.hostname,
    {
        self.request.hostname()
    }

    /// The port to look the hostname up for, from 1 to 65535.
    pub fn port(&self) -> (r: u16)
        ensures
            r == self@.port,
            r >= 1,
    {
        self.request.port()
    }

    /// The text to resolve: `<hostname>:<port>`.
    pub fn lookup_query(&self) -> (query: String)
        ensures
            query@ == spec_lookup_query(self@),
    {
        let port = format_decimal(self.request.port() as u64);
        let mut query = String::from_str(self.request.hostname());
        query.append(":");
        query.append(port.as_str());
        query
    }

    /// Takes the result of the lookup: the addresses in the resolver's order,
    /// or the text of the resolver's error.
    ///
    /// With at least one address the step prints
    /// `Checking <hostname>:<port> (<first address>) (timeout: <seconds>s)` on
    /// standard output and asks for a connection to the first address. After a
    /// failed lookup, or one without addresses, it prints the error's message
    /// on standard error and exits with code 1.
    pub fn resolved(self, lookup: Result<Vec<ResolvedAddress>, String>) -> (step: Step)
        ensures
            step@ == spec_resolved(self@, lookup_view(lookup)),
    {
        let Resolving { request } = self;
        match accept_lookup(request.hostname(), lookup) {
            Ok(addrs) => {
                let primary_ip = addrs[0].ip.clone();
                let line = checking_line(&request, primary_ip.as_str());
                let timeout_secs = request.timeout_secs();
                match begin(addrs, timeout_secs) {
                    ProbeStep::Attempt(prober) => Step {
                        output: Output::Stdout(line),
                        next: Next::Connect(Connecting { request, primary_ip, prober }),
                    },
                    // An accepted lookup holds an address, so the probe has work to do.
                    ProbeStep::Done(_) => vstd::pervasive::unreached(),
                }
            },
            Err(error) => Step {
                output: Output::Stderr(error.message()),
                next: Next::Exit(EXIT_FAILURE),
            },
        }
    }
}

impl Connecting {
    /// The index, in the list given to [`Resolving::resolved`], of the address
    /// to connect to now.
    pub fn target(&self) -> (i: usize)
        ensures
            i == self@.prober.next,
            self@.prober.valid(),
    {
        self.prober.target()
    }

    /// The address to connect to now.
    pub fn address(&self) -> (address: &ResolvedAddress)
        ensures
            address@ == self@.prober.addrs[self@.prober.next],
            self@.prober.valid(),
    {
        self.prober.address()
    }

    /// The seconds to grant this attempt.
    pub fn timeout_secs(&self) -> (secs: u64)
        ensures
            secs == self@.prober.timeout_secs,
    {
        self.prober.timeout_secs()
    }

    /// Takes the result of the attempt on the address at
    /// [`Connecting::target`]: `Ok` for a connection, `Err` with the system's
    /// error text for anything else.
    ///
    /// After a connection the step prints the success line, which names the
    /// address that accepted, and exits with code 0. After a refusal it asks,
    /// in silence, for the next address; after the refusal of the last address
    /// it prints the failure line, which names the first address and the
    /// reason, and exits with code 1.
    pub fn attempted(self, result: Result<(), String>) -> (step: Step)
        ensures
            self@.prober.valid(),
            step@ == spec_connected(self@, attempt_view(result)),
    {
        let Connecting { request, primary_ip, prober } = self;
        match prober.attempted(result) {
            ProbeStep::Attempt(prober) => Step {
                output: Output::Quiet,
                next: Next::Connect(Connecting { request, primary_ip, prober }),
            },
            ProbeStep::Done(outcome) => {
                let line = outcome_line(&request, primary_ip.as_str(), &outcome);
                Step { output: Output::Stdout(line), next: Next::Exit(outcome.exit_code()) }
            },
        }
    }
}

} // verus!

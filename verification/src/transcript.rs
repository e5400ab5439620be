//! What an invocation does as a whole: everything it prints, asks for and
//! tries, in order, down to the code it exits with.
//!
//! [`spec_play`] follows the steps of [`crate::session`] against a given
//! outside world. [`spec_run`] says the same in one piece, stage by stage:
//! arguments, lookup, probe, report. [`lemma_play_is_run`] shows that the two
//! agree, and the remaining lemmas state what follows for whole invocations.

use crate::args::{
    spec_parse_args, spec_parse_port, spec_parse_timeout, spec_usage_report, timeout_flag,
    RequestView, UsageError,
};
use crate::probe::{
    attempts_in_order, attempts_left, lemma_failure_needs_a_refusal,
    lemma_first_reachable_address_is_reported, lemma_probe_is_sequential, lemma_reachable_port_succeeds, lemma_success_needs_a_connection,
    lemma_unreachable_port_fails, refused_reason, seconds_granted, spec_attempted, spec_finish,
    spec_probe, spec_probe_tried, spec_tried, AttemptMade, OutcomeView, ProbeStepView,
    ProberView, EXIT_FAILURE,
};
use crate::report::{spec_checking_line, spec_outcome_line};
use crate::resolve::{
    spec_accept_lookup, spec_resolution_message, AddressView, ResolutionErrorView,
};
use crate::session::{
    spec_connected, spec_lookup_query, spec_resolved, spec_start, ConnectingView, NextView,
    OutputView, StepView,
};
use vstd::prelude::*;

verus! {

/// One thing that an invocation does and that can be observed from outside.
pub enum Event {
    /// A line written to standard output.
    Stdout(Seq<char>),
    /// A text written to standard error.
    Stderr(Seq<char>),
    /// A lookup of this text.
    Lookup(Seq<char>),
    /// A connection attempt.
    Attempt(AttemptMade),
    /// The exit, with this code.
    Exit(i32),
}

/// What printing `output` adds to the record.
pub open spec fn printed(output: OutputView) -> Seq<Event> {
    match output {
        OutputView::Quiet => Seq::empty(),
        OutputView::Stdout(line) => seq![Event::Stdout(line)],
        OutputView::Stderr(text) => seq![Event::Stderr(text)],
    }
}

/// The given attempts as events.
pub open spec fn attempt_events(attempts: Seq<AttemptMade>) -> Seq<Event> {
    Seq::new(attempts.len(), |k: int| Event::Attempt(attempts[k]))
}

/// An upper bound on the number of steps that follow `next`.
pub open spec fn steps_left(next: NextView, lookup: Result<Seq<AddressView>, Seq<char>>) -> nat {
    match next {
        NextView::Exit(_) => 0,
        NextView::Connect(connecting) => attempts_left(ProbeStepView::Attempt(connecting.prober)),
        NextView::Resolve(_) => match lookup {
            Ok(addrs) => addrs.len() + 1,
            Err(_) => 1,
        },
    }
}

/// What an invocation that stands at `step` does from there on, in a world
/// where the lookup gives `lookup` and the attempt on the address at index
/// `i`, once made, gives `results[i]`: it prints the step's output, does what
/// the step asks for, and goes on with the step that follows.
pub open spec fn spec_play(
    step: StepView,
    lookup: Result<Seq<AddressView>, Seq<char>>,
    results: Seq<Result<(), Seq<char>>>,
) -> Seq<Event>
    decreases steps_left(step.next, lookup),
{
    printed(step.output) + (match step.next {
        NextView::Exit(code) => seq![Event::Exit(code)],
        NextView::Resolve(request) => seq![Event::Lookup(spec_lookup_query(request))] + spec_play(
            spec_resolved(request, lookup),
            lookup,
            results,
        ),
        NextView::Connect(connecting) => if connecting.prober.valid() {
            seq![
                Event::Attempt(
                    AttemptMade {
                        index: connecting.prober.next,
                        timeout_secs: connecting.prober.timeout_secs,
                    },
                ),
            ] + spec_play(
                spec_connected(connecting, results[connecting.prober.next]),
                lookup,
                results,
            )
        } else {
            Seq::empty()
        },
    })
}

/// The end of every invocation that got as far as probing: the attempts, the
/// line that tells how the probe ended, and the exit with the outcome's code.
pub open spec fn spec_probe_events(
    request: RequestView,
    primary_ip: Seq<char>,
    attempts: Seq<AttemptMade>,
    outcome: OutcomeView,
) -> Seq<Event> {
    attempt_events(attempts) + seq![
        Event::Stdout(spec_outcome_line(request, primary_ip, outcome)),
        Event::Exit(outcome.exit_code()),
    ]
}

/// What an invocation with the arguments `args` does, in a world where the
/// lookup gives `lookup` and the attempt on the address at index `i`, once
/// made, gives `results[i]`.
///
/// - Invalid arguments: the usage report on standard error, then exit code 1.
/// - A failed or empty lookup: the lookup, its message on standard error,
///   then exit code 1.
/// - Otherwise: the lookup, the line that tells what is checked, the attempts
///   of the probe, the line that tells how it ended, then the outcome's exit
///   code.
pub open spec fn spec_run(
    args: Seq<Seq<char>>,
    lookup: Result<Seq<AddressView>, Seq<char>>,
    results: Seq<Result<(), Seq<char>>>,
) -> Seq<Event> {
    match spec_parse_args(args) {
        Err(error) => seq![
            Event::Stderr(spec_usage_report(error, args)),
            Event::Exit(EXIT_FAILURE),
        ],
        Ok(request) => match spec_accept_lookup(request.hostname, lookup) {
            Err(error) => seq![
                Event::Lookup(spec_lookup_query(request)),
                Event::Stderr(spec_resolution_message(error)),
                Event::Exit(EXIT_FAILURE),
            ],
            Ok(addrs) => seq![
                Event::Lookup(spec_lookup_query(request)),
                Event::Stdout(spec_checking_line(request, addrs[0].ip)),
            ] + spec_probe_events(
                request,
                addrs[0].ip,
                spec_probe_tried(addrs, request.timeout_secs, results),
                spec_probe(addrs, request.timeout_secs, results),
            ),
        },
    }
}

proof fn lemma_play_while_connecting(
    output: OutputView,
    connecting: ConnectingView,
    lookup: Result<Seq<AddressView>, Seq<char>>,
    results: Seq<Result<(), Seq<char>>>,
)
    requires
        connecting.prober.valid(),
    ensures
        spec_play(StepView { output, next: NextView::Connect(connecting) }, lookup, results)
            == printed(output) + spec_probe_events(
            connecting.request,
            connecting.primary_ip,
            spec_tried(ProbeStepView::Attempt(connecting.prober), results),
            spec_finish(ProbeStepView::Attempt(connecting.prober), results),
        ),
    decreases attempts_left(ProbeStepView::Attempt(connecting.prober)),
{
    reveal_with_fuel(spec_play, 2);
    reveal_with_fuel(spec_finish, 2);
    reveal_with_fuel(spec_tried, 2);
    let prober = connecting.prober;
    let result = results[prober.next];
    if let ProbeStepView::Attempt(onward) = spec_attempted(prober, result) {
        lemma_play_while_connecting(
            OutputView::Quiet,
            ConnectingView { prober: onward, ..connecting },
            lookup,
            results,
        );
    }
    let first = AttemptMade { index: prober.next, timeout_secs: prober.timeout_secs };
    let later = spec_tried(spec_attempted(prober, result), results);
    let last = seq![
        Event::Stdout(
            spec_outcome_line(
                connecting.request,
                connecting.primary_ip,
                spec_finish(ProbeStepView::Attempt(prober), results),
            ),
        ),
        Event::Exit(spec_finish(ProbeStepView::Attempt(prober), results).exit_code()),
    ];
    assert(seq![Event::Attempt(first)] + (attempt_events(later) + last) =~= attempt_events(
        seq![first] + later,
    ) + last);
    assert(Seq::<Event>::empty() + (attempt_events(later) + last) =~= attempt_events(later)
        + last);
}

/// Following the steps of a session gives what [`spec_run`] describes, for
/// every argument list and in every outside world.
pub proof fn lemma_play_is_run(
    args: Seq<Seq<char>>,
    lookup: Result<Seq<AddressView>, Seq<char>>,
    results: Seq<Result<(), Seq<char>>>,
)
    ensures
        spec_play(spec_start(args), lookup, results) == spec_run(args, lookup, results),
{
    reveal_with_fuel(spec_play, 3);
    if let Ok(request) = spec_parse_args(args) {
        if let Ok(addrs) = spec_accept_lookup(request.hostname, lookup) {
            let connecting = ConnectingView {
                request,
                primary_ip: addrs[0].ip,
                prober: ProberView { addrs, timeout_secs: request.timeout_secs, next: 0 },
            };
            lemma_play_while_connecting(
                spec_resolved(request, lookup).output,
                connecting,
                lookup,
                results,
            );
        }
    }
}

/// An argument list that is no valid invocation is answered with the usage
/// report on standard error and exit code 1, and with nothing else: nothing
/// is looked up, no connection is attempted, nothing goes to standard output.
pub proof fn lemma_invalid_arguments_end_the_run(
    args: Seq<Seq<char>>,
    lookup: Result<Seq<AddressView>, Seq<char>>,
    results: Seq<Result<(), Seq<char>>>,
)
    requires
        spec_parse_args(args) is Err,
    ensures
        spec_run(args, lookup, results) == seq![
            Event::Stderr(spec_usage_report(spec_parse_args(args)->Err_0, args)),
            Event::Exit(1),
        ],
{
}

/// A port argument that is no number, or a number outside 1 to 65535, is a
/// usage error of its own: the run writes the report for an invalid port to
/// standard error and exits with code 1, without a lookup.
pub proof fn lemma_invalid_port_ends_the_run(
    args: Seq<Seq<char>>,
    lookup: Result<Seq<AddressView>, Seq<char>>,
    results: Seq<Result<(), Seq<char>>>,
)
    requires
        3 <= args.len() <= 5,
        spec_parse_port(args[2]) is None,
    ensures
        spec_parse_args(args) == Err::<RequestView, UsageError>(UsageError::InvalidPort),
        spec_run(args, lookup, results) == seq![
            Event::Stderr(spec_usage_report(UsageError::InvalidPort, args)),
            Event::Exit(1),
        ],
{
}

/// A value after `--timeout` that is no number, or is zero, or does not fit
/// 64 bits, is a usage error of its own: the run writes the report for an
/// invalid timeout to standard error and exits with code 1, without a lookup.
pub proof fn lemma_invalid_timeout_ends_the_run(
    args: Seq<Seq<char>>,
    lookup: Result<Seq<AddressView>, Seq<char>>,
    results: Seq<Result<(), Seq<char>>>,
)
    requires
        args.len() == 5,
        spec_parse_port(args[2]) is Some,
        args[3] == timeout_flag(),
        spec_parse_timeout(args[4]) is None,
    ensures
        spec_parse_args(args) == Err::<RequestView, UsageError>(UsageError::InvalidTimeout),
        spec_run(args, lookup, results) == seq![
            Event::Stderr(spec_usage_report(UsageError::InvalidTimeout, args)),
            Event::Exit(1),
        ],
{
}

/// A hostname that does not resolve ends the run after the lookup: the message
/// of the failed lookup goes to standard error and the exit code is 1. No
/// connection is attempted.
pub proof fn lemma_failed_lookup_ends_the_run(
    args: Seq<Seq<char>>,
    cause: Seq<char>,
    results: Seq<Result<(), Seq<char>>>,
)
    requires
        spec_parse_args(args) is Ok,
    ensures
        ({
            let request = spec_parse_args(args)->Ok_0;
            spec_run(args, Err(cause), results) == seq![
                Event::Lookup(spec_lookup_query(request)),
                Event::Stderr(
                    spec_resolution_message(
                        ResolutionErrorView::LookupFailed { hostname: request.hostname, cause },
                    ),
                ),
                Event::Exit(1),
            ]
        }),
{
}

/// A lookup that succeeds without an address ends the run in the same way,
/// with the message that no addresses were found.
pub proof fn lemma_empty_lookup_ends_the_run(
    args: Seq<Seq<char>>,
    results: Seq<Result<(), Seq<char>>>,
)
    requires
        spec_parse_args(args) is Ok,
    ensures
        ({
            let request = spec_parse_args(args)->Ok_0;
            spec_run(args, Ok(Seq::empty()), results) == seq![
                Event::Lookup(spec_lookup_query(request)),
                Event::Stderr(
                    spec_resolution_message(
                        ResolutionErrorView::NoAddresses { hostname: request.hostname },
                    ),
                ),
                Event::Exit(1),
            ]
        }),
{
}

/// Where the arguments are valid and any of the resolved addresses accepts a
/// connection, the run ends with exit code 0.
pub proof fn lemma_open_port_exits_zero(
    args: Seq<Seq<char>>,
    addrs: Seq<AddressView>,
    results: Seq<Result<(), Seq<char>>>,
)
    requires
        spec_parse_args(args) is Ok,
        results.len() == addrs.len(),
        exists|i: int| 0 <= i < addrs.len() && results[i] is Ok,
    ensures
        spec_run(args, Ok(addrs), results).last() == Event::Exit(0),
{
    let request = spec_parse_args(args)->Ok_0;
    lemma_reachable_port_succeeds(addrs, request.timeout_secs, results);
}

/// Where the arguments are valid and the first address to accept a connection
/// is `addrs[i]`, the run tries the addresses up to that one, in order, prints
/// the success line with that very address, and exits with code 0. That
/// earlier addresses refused shows nowhere in what is printed.
pub proof fn lemma_run_reports_first_reachable_address(
    args: Seq<Seq<char>>,
    addrs: Seq<AddressView>,
    results: Seq<Result<(), Seq<char>>>,
    i: int,
)
    requires
        spec_parse_args(args) is Ok,
        results.len() == addrs.len(),
        0 <= i < addrs.len(),
        results[i] is Ok,
        forall|j: int| 0 <= j < i ==> results[j] is Err,
    ensures
        ({
            let request = spec_parse_args(args)->Ok_0;
            spec_run(args, Ok(addrs), results) == seq![
                Event::Lookup(spec_lookup_query(request)),
                Event::Stdout(spec_checking_line(request, addrs[0].ip)),
            ] + attempt_events(attempts_in_order(0, i + 1, request.timeout_secs)) + seq![
                Event::Stdout(
                    spec_outcome_line(
                        request,
                        addrs[0].ip,
                        OutcomeView::Succeeded { address: addrs[i] },
                    ),
                ),
                Event::Exit(0),
            ]
        }),
{
    let request = spec_parse_args(args)->Ok_0;
    lemma_first_reachable_address_is_reported(addrs, request.timeout_secs, results, i);
}

/// Where the arguments are valid and every resolved address refuses, the run
/// tries each address once, in order, prints the failure line with the error
/// of the last attempt, and exits with code 1. Each attempt is granted the
/// timeout that was asked for, so the seconds granted add up to the timeout
/// times the number of addresses.
pub proof fn lemma_closed_port_exits_one(
    args: Seq<Seq<char>>,
    addrs: Seq<AddressView>,
    results: Seq<Result<(), Seq<char>>>,
)
    requires
        spec_parse_args(args) is Ok,
        addrs.len() > 0,
        results.len() == addrs.len(),
        forall|i: int| 0 <= i < addrs.len() ==> results[i] is Err,
    ensures
        ({
            let request = spec_parse_args(args)->Ok_0;
            let attempts = attempts_in_order(0, addrs.len() as int, request.timeout_secs);
            &&& spec_run(args, Ok(addrs), results) == seq![
                Event::Lookup(spec_lookup_query(request)),
                Event::Stdout(spec_checking_line(request, addrs[0].ip)),
            ] + attempt_events(attempts) + seq![
                Event::Stdout(
                    spec_outcome_line(
                        request,
                        addrs[0].ip,
                        OutcomeView::Failed {
                            reason: refused_reason(results[addrs.len() - 1]->Err_0),
                        },
                    ),
                ),
                Event::Exit(1),
            ]
            &&& seconds_granted(attempts) == addrs.len() * request.timeout_secs
        }),
{
    let request = spec_parse_args(args)->Ok_0;
    lemma_unreachable_port_fails(addrs, request.timeout_secs, results);
}

/// Whatever the attempts give, a run with valid arguments and at least one
/// resolved address has this shape: the lookup, the line that tells what is
/// checked, one attempt on each of the first `k` addresses, in order and each
/// granted the timeout that was asked for, the line that tells how the probe
/// ended, and the exit. Here `k` is at least 1 and at most the number of
/// addresses, so the seconds granted add up to no more than the timeout times
/// that number. The exit code is 0 or 1, and it is 0 exactly if the last
/// attempt gave a connection.
pub proof fn lemma_run_is_sequential(
    args: Seq<Seq<char>>,
    addrs: Seq<AddressView>,
    results: Seq<Result<(), Seq<char>>>,
)
    requires
        spec_parse_args(args) is Ok,
        addrs.len() > 0,
        results.len() == addrs.len(),
    ensures
        ({
            let request = spec_parse_args(args)->Ok_0;
            let outcome = spec_probe(addrs, request.timeout_secs, results);
            let k = spec_probe_tried(addrs, request.timeout_secs, results).len() as int;
            let attempts = attempts_in_order(0, k, request.timeout_secs);
            &&& 1 <= k <= addrs.len()
            &&& seconds_granted(attempts) <= addrs.len() * request.timeout_secs
            &&& spec_run(args, Ok(addrs), results) == seq![
                Event::Lookup(spec_lookup_query(request)),
                Event::Stdout(spec_checking_line(request, addrs[0].ip)),
            ] + attempt_events(attempts) + seq![
                Event::Stdout(spec_outcome_line(request, addrs[0].ip, outcome)),
                Event::Exit(outcome.exit_code()),
            ]
            &&& outcome.exit_code() == 0 || outcome.exit_code() == 1
            &&& outcome.exit_code() == 0 <==> results[k - 1] is Ok
            &&& outcome matches OutcomeView::Succeeded { address } ==> address == addrs[k - 1]
        }),
{
    let request = spec_parse_args(args)->Ok_0;
    lemma_probe_is_sequential(addrs, request.timeout_secs, results);
    if spec_probe(addrs, request.timeout_secs, results) is Succeeded {
        lemma_success_needs_a_connection(addrs, request.timeout_secs, results);
    } else {
        lemma_failure_needs_a_refusal(addrs, request.timeout_secs, results);
    }
}

} // verus!

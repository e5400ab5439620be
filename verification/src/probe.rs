//! The connectivity prober: which address to try next, and when to stop.
//!
//! The addresses are tried one at a time, in the order given. The first that
//! accepts a connection ends the probe with success; a refusal moves on to the
//! next address, and the refusal of the last one ends the probe with failure.
//! No address is tried twice.
//!
//! Connecting is the caller's business. A [`Prober`] names the address to try
//! and the seconds to grant the attempt; the caller makes the attempt and hands
//! back what came of it.

use crate::resolve::{AddressView, ResolvedAddress};
use vstd::prelude::*;
use vstd::string::*;

verus! {

/// The exit code of a check that found the port open.
pub const EXIT_REACHABLE: i32 = 0;

/// The exit code of a check that did not.
pub const EXIT_FAILURE: i32 = 1;

/// How a probe ended: with the address that accepted a connection, or with
/// the reason why none did. It is always one of the two, never both.
#[derive(Debug, PartialEq, Eq)]
pub enum CheckOutcome {
    Succeeded { address: ResolvedAddress },
    Failed { reason: String },
}

/// A [`CheckOutcome`] as a mathematical value.
pub enum OutcomeView {
    Succeeded { address: AddressView },
    Failed { reason: Seq<char> },
}

impl OutcomeView {
    /// 0 for a success, 1 for a failure.
    pub open spec fn exit_code(self) -> i32 {
        match self {
            OutcomeView::Succeeded { .. } => EXIT_REACHABLE,
            OutcomeView::Failed { .. } => EXIT_FAILURE,
        }
    }
}

impl View for CheckOutcome {
    type V = OutcomeView;

    open spec fn view(&self) -> OutcomeView {
        match self {
            CheckOutcome::Succeeded { address } => OutcomeView::Succeeded { address: address@ },
            CheckOutcome::Failed { reason } => OutcomeView::Failed { reason: reason@ },
        }
    }
}

impl CheckOutcome {
    /// The address that accepted the connection, if one did.
    pub fn succeeded_address(&self) -> (r: Option<&ResolvedAddress>)
        ensures
            match r {
                Some(address) => self@ == (OutcomeView::Succeeded { address: address@ }),
                None => self@ is Failed,
            },
    {
        match self {
            CheckOutcome::Succeeded { address } => Some(address),
            CheckOutcome::Failed { .. } => None,
        }
    }

    /// Why the probe failed, if it did.
    pub fn failure_reason(&self) -> (r: Option<&str>)
        ensures
            match r {
                Some(reason) => self@ == (OutcomeView::Failed { reason: reason@ }),
                None => self@ is Succeeded,
            },
    {
        match self {
            CheckOutcome::Succeeded { .. } => None,
            CheckOutcome::Failed { reason } => Some(reason.as_str()),
        }
    }

    /// The exit code that reports this outcome: 0 for a success, 1 for a failure.
    pub fn exit_code(&self) -> (code: i32)
        ensures
            code == self@.exit_code(),
            code == 0 <==> self@ is Succeeded,
            code == 1 <==> self@ is Failed,
    {
        match self {
            CheckOutcome::Succeeded { .. } => EXIT_REACHABLE,
            CheckOutcome::Failed { .. } => EXIT_FAILURE,
        }
    }
}

/// What one connection attempt gave, as a mathematical value: the connection,
/// or the text of the system's error.
pub open spec fn attempt_view(result: Result<(), String>) -> Result<(), Seq<char>> {
    match result {
        Ok(()) => Ok(()),
        Err(error) => Err(error@),
    }
}

/// The reason given when the last address refused, with the system's error text.
pub open spec fn refused_reason(error: Seq<char>) -> Seq<char> {
    "port closed or unreachable ("@ + error + ")"@
}

/// The reason given when there was no address to try.
pub open spec fn exhausted_reason() -> Seq<char> {
    "All connection attempts failed"@
}

/// A probe that has an attempt outstanding: the caller is to connect to the
/// address at index [`Prober::target`] and report with [`Prober::attempted`].
#[derive(Debug)]
pub struct Prober {
    addrs: Vec<ResolvedAddress>,
    timeout_secs: u64,
    next: usize,
}

/// A [`Prober`] as a mathematical value: the addresses, the seconds granted
/// to each attempt, and the index of the address to try next.
pub struct ProberView {
    pub addrs: Seq<AddressView>,
    pub timeout_secs: u64,
    pub next: int,
}

impl ProberView {
    /// There is an address to try.
    pub open spec fn valid(self) -> bool {
        0 <= self.next < self.addrs.len()
    }
}

impl View for Prober {
    type V = ProberView;

    closed spec fn view(&self) -> ProberView {
        ProberView {
            addrs: self.addrs.deep_view(),
            timeout_secs: self.timeout_secs,
            next: self.next as int,
        }
    }
}

/// Where a probe stands: waiting for an attempt, or over.
#[derive(Debug)]
pub enum ProbeStep {
    Attempt(Prober),
    Done(CheckOutcome),
}

/// A [`ProbeStep`] as a mathematical value.
pub enum ProbeStepView {
    Attempt(ProberView),
    Done(OutcomeView),
}

impl View for ProbeStep {
    type V = ProbeStepView;

    open spec fn view(&self) -> ProbeStepView {
        match self {
            ProbeStep::Attempt(prober) => ProbeStepView::Attempt(prober@),
            ProbeStep::Done(outcome) => ProbeStepView::Done(outcome@),
        }
    }
}

/// How a probe of `addrs` starts: with an attempt on the first address, or,
/// where there is none, with failure at once.
pub open spec fn spec_begin(addrs: Seq<AddressView>, timeout_secs: u64) -> ProbeStepView {
    if addrs.len() == 0 {
        ProbeStepView::Done(OutcomeView::Failed { reason: exhausted_reason() })
    } else {
        ProbeStepView::Attempt(ProberView { addrs, timeout_secs, next: 0 })
    }
}

/// How a probe goes on after the attempt on `prober.addrs[prober.next]`.
///
/// A connection ends it with that address. A refusal moves it to the next
/// address, or, after the last, ends it with the refusal's error text.
pub open spec fn spec_attempted(
    prober: ProberView,
    result: Result<(), Seq<char>>,
) -> ProbeStepView {
    match result {
        Ok(()) => ProbeStepView::Done(
            OutcomeView::Succeeded { address: prober.addrs[prober.next] },
        ),
        Err(error) => if prober.next + 1 < prober.addrs.len() {
            ProbeStepView::Attempt(ProberView { next: prober.next + 1, ..prober })
        } else {
            ProbeStepView::Done(OutcomeView::Failed { reason: refused_reason(error) })
        },
    }
}

/// The number of attempts that may still follow.
pub open spec fn attempts_left(step: ProbeStepView) -> nat {
    match step {
        ProbeStepView::Attempt(prober) => if prober.valid() {
            (prober.addrs.len() - prober.next) as nat
        } else {
            0
        },
        ProbeStepView::Done(_) => 0,
    }
}

/// How a probe that stands at `step` ends, if the attempt on the address at
/// index `i`, once made, gives `results[i]`.
pub open spec fn spec_finish(
    step: ProbeStepView,
    results: Seq<Result<(), Seq<char>>>,
) -> OutcomeView
    decreases attempts_left(step),
{
    match step {
        ProbeStepView::Done(outcome) => outcome,
        ProbeStepView::Attempt(prober) => if prober.valid() {
            spec_finish(spec_attempted(prober, results[prober.next]), results)
        } else {
            OutcomeView::Failed { reason: exhausted_reason() }
        },
    }
}

/// One connection attempt: the index of the address it went to, and the
/// seconds it was granted.
pub struct AttemptMade {
    pub index: int,
    pub timeout_secs: u64,
}

/// The attempts that a probe standing at `step` still makes, in the order in
/// which it makes them.
pub open spec fn spec_tried(
    step: ProbeStepView,
    results: Seq<Result<(), Seq<char>>>,
) -> Seq<AttemptMade>
    decreases attempts_left(step),
{
    match step {
        ProbeStepView::Done(_) => Seq::empty(),
        ProbeStepView::Attempt(prober) => if prober.valid() {
            seq![AttemptMade { index: prober.next, timeout_secs: prober.timeout_secs }]
                + spec_tried(spec_attempted(prober, results[prober.next]), results)
        } else {
            Seq::empty()
        },
    }
}

/// How a probe of `addrs` ends, if the attempt on `addrs[i]`, once made, gives
/// `results[i]`.
pub open spec fn spec_probe(
    addrs: Seq<AddressView>,
    timeout_secs: u64,
    results: Seq<Result<(), Seq<char>>>,
) -> OutcomeView {
    spec_finish(spec_begin(addrs, timeout_secs), results)
}

/// The attempts that a probe of `addrs` makes, in order.
pub open spec fn spec_probe_tried(
    addrs: Seq<AddressView>,
    timeout_secs: u64,
    results: Seq<Result<(), Seq<char>>>,
) -> Seq<AttemptMade> {
    spec_tried(spec_begin(addrs, timeout_secs), results)
}

/// Starts a probe of `addrs`, each attempt bounded by `timeout_secs` seconds.
///
/// With no address the probe is over at once, failed with the reason
/// `All connection attempts failed`. Otherwise the first address is to be tried.
pub fn begin(addrs: Vec<ResolvedAddress>, timeout_secs: u64) -> (step: ProbeStep)
    ensures
        step@ == spec_begin(addrs.deep_view(), timeout_secs),
{
    if addrs.len() == 0 {
        ProbeStep::Done(
            CheckOutcome::Failed { reason: String::from_str("All connection attempts failed") },
        )
    } else {
        ProbeStep::Attempt(Prober { addrs, timeout_secs, next: 0 })
    }
}

impl Prober {
    #[verifier::type_invariant]
    spec fn well_formed(&self) -> bool {
        self.next < self.addrs.len()
    }

    /// The index, in the list the probe was started with, of the address to
    /// connect to now.
    pub fn target(&self) -> (i: usize)
        ensures
            i == self@.next,
            self@.valid(),
    {
        proof {
            use_type_invariant(self);
        }
        self.next
    }

    /// The address to connect to now.
    pub fn address(&self) -> (address: &ResolvedAddress)
        ensures
            address@ == self@.addrs[self@.next],
            self@.valid(),
    {
        proof {
            use_type_invariant(self);
        }
        &self.addrs[self.next]
    }

    /// The seconds to grant the attempt: the same for every attempt of a probe.
    pub fn timeout_secs(&self) -> (secs: u64)
        ensures
            secs == self@.timeout_secs,
    {
        self.timeout_secs
    }

    /// Takes the result of the attempt on the address at [`Prober::target`]:
    /// `Ok` for a connection, `Err` with the system's error text for anything
    /// else, a timeout included.
    ///
    /// After a connection the probe is over, succeeded with that address.
    /// After a refusal the next address is to be tried; after the refusal of
    /// the last address the probe is over, failed with the reason
    /// `port closed or unreachable (<error text>)`.
    pub fn attempted(self, result: Result<(), String>) -> (step: ProbeStep)
        ensures
            self@.valid(),
            step@ == spec_attempted(self@, attempt_view(result)),
    {
        proof {
            use_type_invariant(&self);
        }
        let Prober { mut addrs, timeout_secs, next } = self;
        match result {
            Ok(()) => {
                let address = addrs.swap_remove(next);
                ProbeStep::Done(CheckOutcome::Succeeded { address })
            },
            Err(error) => {
                if next + 1 < addrs.len() {
                    ProbeStep::Attempt(Prober { addrs, timeout_secs, next: next + 1 })
                } else {
                    let mut reason = String::from_str("port closed or unreachable (");
                    reason.append(error.as_str());
                    reason.append(")");
                    ProbeStep::Done(CheckOutcome::Failed { reason })
                }
            },
        }
    }
}

/// One attempt on each of the addresses at the indices `from`, `from + 1`,
/// ..., `to - 1`, in this order, each granted `timeout_secs` seconds.
pub open spec fn attempts_in_order(from: int, to: int, timeout_secs: u64) -> Seq<AttemptMade> {
    Seq::new((to - from) as nat, |k: int| AttemptMade { index: from + k, timeout_secs })
}

/// The seconds granted to a sequence of attempts, added up: the longest that
/// they can take together.
pub open spec fn seconds_granted(attempts: Seq<AttemptMade>) -> nat
    decreases attempts.len(),
{
    if attempts.len() == 0 {
        0
    } else {
        seconds_granted(attempts.drop_last()) + attempts.last().timeout_secs as nat
    }
}

/// Attempts in order are granted their number times the timeout.
pub proof fn lemma_seconds_granted_in_order(from: int, to: int, timeout_secs: u64)
    requires
        from <= to,
    ensures
        seconds_granted(attempts_in_order(from, to, timeout_secs)) == (to - from) * timeout_secs,
    decreases to - from,
{
    let attempts = attempts_in_order(from, to, timeout_secs);
    if from < to {
        lemma_seconds_granted_in_order(from, to - 1, timeout_secs);
        assert(attempts.drop_last() =~= attempts_in_order(from, to - 1, timeout_secs));
        assert((to - from) * timeout_secs == (to - 1 - from) * timeout_secs + timeout_secs)
            by (nonlinear_arith);
    } else {
        assert((to - from) * timeout_secs == 0) by (nonlinear_arith)
            requires
                to == from,
        ;
    }
}

/// Whether the attempt on index `i` is the first, from index `from` on, that
/// gives a connection.
spec fn first_connection_at(
    results: Seq<Result<(), Seq<char>>>,
    from: int,
    i: int,
) -> bool {
    &&& from <= i
    &&& results[i] is Ok
    &&& forall|j: int| from <= j < i ==> results[j] is Err
}

proof fn lemma_finish_at_first_connection(
    prober: ProberView,
    results: Seq<Result<(), Seq<char>>>,
    i: int,
)
    requires
        prober.valid(),
        i < prober.addrs.len(),
        first_connection_at(results, prober.next, i),
    ensures
        spec_finish(ProbeStepView::Attempt(prober), results) == (OutcomeView::Succeeded {
            address: prober.addrs[i],
        }),
        spec_tried(ProbeStepView::Attempt(prober), results) == attempts_in_order(
            prober.next,
            i + 1,
            prober.timeout_secs,
        ),
    decreases i - prober.next,
{
    reveal_with_fuel(spec_finish, 2);
    reveal_with_fuel(spec_tried, 2);
    if prober.next < i {
        lemma_finish_at_first_connection(
            ProberView { next: prober.next + 1, ..prober },
            results,
            i,
        );
    }
}

proof fn lemma_finish_all_refused(prober: ProberView, results: Seq<Result<(), Seq<char>>>)
    requires
        prober.valid(),
        forall|j: int| prober.next <= j < prober.addrs.len() ==> results[j] is Err,
    ensures
        spec_finish(ProbeStepView::Attempt(prober), results) == (OutcomeView::Failed {
            reason: refused_reason(results[prober.addrs.len() - 1]->Err_0),
        }),
        spec_tried(ProbeStepView::Attempt(prober), results) == attempts_in_order(
            prober.next,
            prober.addrs.len() as int,
            prober.timeout_secs,
        ),
    decreases prober.addrs.len() - prober.next,
{
    reveal_with_fuel(spec_finish, 2);
    reveal_with_fuel(spec_tried, 2);
    if prober.next + 1 < prober.addrs.len() {
        lemma_finish_all_refused(ProberView { next: prober.next + 1, ..prober }, results);
    }
}

proof fn lemma_first_connection_exists(
    results: Seq<Result<(), Seq<char>>>,
    from: int,
    i: int,
) -> (first: int)
    requires
        from <= i,
        results[i] is Ok,
    ensures
        first <= i,
        first_connection_at(results, from, first),
    decreases i - from,
{
    if results[from] is Ok {
        from
    } else {
        lemma_first_connection_exists(results, from + 1, i)
    }
}

/// The first address that accepts a connection is the one the probe reports,
/// whatever the addresses before it did: their refusals never become the
/// outcome. The probe tries the addresses up to that one, each once and in
/// order, and none after it.
pub proof fn lemma_first_reachable_address_is_reported(
    addrs: Seq<AddressView>,
    timeout_secs: u64,
    results: Seq<Result<(), Seq<char>>>,
    i: int,
)
    requires
        results.len() == addrs.len(),
        0 <= i < addrs.len(),
        results[i] is Ok,
        forall|j: int| 0 <= j < i ==> results[j] is Err,
    ensures
        spec_probe(addrs, timeout_secs, results) == (OutcomeView::Succeeded { address: addrs[i] }),
        spec_probe_tried(addrs, timeout_secs, results) == attempts_in_order(0, i + 1, timeout_secs),
{
    lemma_finish_at_first_connection(ProberView { addrs, timeout_secs, next: 0 }, results, i);
}

/// Where any of the addresses accepts a connection, the probe succeeds and
/// the exit code is 0.
pub proof fn lemma_reachable_port_succeeds(
    addrs: Seq<AddressView>,
    timeout_secs: u64,
    results: Seq<Result<(), Seq<char>>>,
)
    requires
        results.len() == addrs.len(),
        exists|i: int| 0 <= i < addrs.len() && results[i] is Ok,
    ensures
        spec_probe(addrs, timeout_secs, results) is Succeeded,
        spec_probe(addrs, timeout_secs, results).exit_code() == 0,
{
    let i = choose|i: int| 0 <= i < addrs.len() && results[i] is Ok;
    let first = lemma_first_connection_exists(results, 0, i);
    lemma_first_reachable_address_is_reported(addrs, timeout_secs, results, first);
}

/// Where every address refuses, the probe fails with the error of the last
/// one and the exit code is 1, after one attempt on each address, in order.
/// The seconds granted to the attempts add up to `timeout_secs` times the
/// number of addresses.
pub proof fn lemma_unreachable_port_fails(
    addrs: Seq<AddressView>,
    timeout_secs: u64,
    results: Seq<Result<(), Seq<char>>>,
)
    requires
        addrs.len() > 0,
        results.len() == addrs.len(),
        forall|i: int| 0 <= i < addrs.len() ==> results[i] is Err,
    ensures
        spec_probe(addrs, timeout_secs, results) == (OutcomeView::Failed {
            reason: refused_reason(results[addrs.len() - 1]->Err_0),
        }),
        spec_probe(addrs, timeout_secs, results).exit_code() == 1,
        spec_probe_tried(addrs, timeout_secs, results) == attempts_in_order(
            0,
            addrs.len() as int,
            timeout_secs,
        ),
        seconds_granted(spec_probe_tried(addrs, timeout_secs, results)) == addrs.len()
            * timeout_secs,
{
    lemma_finish_all_refused(ProberView { addrs, timeout_secs, next: 0 }, results);
    lemma_seconds_granted_in_order(0, addrs.len() as int, timeout_secs);
}

/// A probe of no address fails without an attempt.
pub proof fn lemma_nothing_to_probe(timeout_secs: u64, results: Seq<Result<(), Seq<char>>>)
    ensures
        spec_probe(Seq::<AddressView>::empty(), timeout_secs, results) == (OutcomeView::Failed {
            reason: exhausted_reason(),
        }),
        spec_probe_tried(Seq::<AddressView>::empty(), timeout_secs, results).len() == 0,
{
}

proof fn lemma_tried_is_a_run(step: ProbeStepView, results: Seq<Result<(), Seq<char>>>)
    ensures
        spec_tried(step, results).len() <= attempts_left(step),
        step matches ProbeStepView::Attempt(prober) ==> spec_tried(step, results)
            == attempts_in_order(
            prober.next,
            prober.next + spec_tried(step, results).len(),
            prober.timeout_secs,
        ),
    decreases attempts_left(step),
{
    reveal_with_fuel(spec_tried, 2);
    if let ProbeStepView::Attempt(prober) = step {
        if prober.valid() {
            let onward = spec_attempted(prober, results[prober.next]);
            lemma_tried_is_a_run(onward, results);
            assert(spec_tried(step, results) =~= attempts_in_order(
                prober.next,
                prober.next + spec_tried(step, results).len(),
                prober.timeout_secs,
            ));
        } else {
            assert(spec_tried(step, results) =~= attempts_in_order(
                prober.next,
                prober.next as int,
                prober.timeout_secs,
            ));
        }
    }
}

/// Whatever the attempts give, a probe tries the addresses from the first on,
/// in order and each at most once, and grants each attempt `timeout_secs`
/// seconds. So it makes no more attempts than there are addresses, and the
/// seconds it grants add up to no more than `timeout_secs` times the number
/// of addresses.
pub proof fn lemma_probe_is_sequential(
    addrs: Seq<AddressView>,
    timeout_secs: u64,
    results: Seq<Result<(), Seq<char>>>,
)
    requires
        results.len() == addrs.len(),
    ensures
        spec_probe_tried(addrs, timeout_secs, results).len() <= addrs.len(),
        spec_probe_tried(addrs, timeout_secs, results) == attempts_in_order(
            0,
            spec_probe_tried(addrs, timeout_secs, results).len() as int,
            timeout_secs,
        ),
        seconds_granted(spec_probe_tried(addrs, timeout_secs, results)) <= addrs.len()
            * timeout_secs,
{
    lemma_tried_is_a_run(spec_begin(addrs, timeout_secs), results);
    let made = spec_probe_tried(addrs, timeout_secs, results).len();
    lemma_seconds_granted_in_order(0, made as int, timeout_secs);
    assert(made * timeout_secs <= addrs.len() * timeout_secs) by (nonlinear_arith)
        requires
            made <= addrs.len(),
    ;
}

proof fn lemma_finish_succeeds_at_last_try(
    step: ProbeStepView,
    results: Seq<Result<(), Seq<char>>>,
)
    requires
        step is Attempt,
        spec_finish(step, results) is Succeeded,
    ensures
        spec_tried(step, results).len() > 0,
        results[spec_tried(step, results).last().index] is Ok,
        spec_finish(step, results) == (OutcomeView::Succeeded {
            address: step->Attempt_0.addrs[spec_tried(step, results).last().index],
        }),
    decreases attempts_left(step),
{
    reveal_with_fuel(spec_finish, 2);
    reveal_with_fuel(spec_tried, 2);
    let prober = step->Attempt_0;
    if prober.valid() {
        let onward = spec_attempted(prober, results[prober.next]);
        if onward is Attempt {
            lemma_finish_succeeds_at_last_try(onward, results);
        }
    }
}

/// A probe succeeds only with an address that accepted a connection: the one
/// it tried last.
pub proof fn lemma_success_needs_a_connection(
    addrs: Seq<AddressView>,
    timeout_secs: u64,
    results: Seq<Result<(), Seq<char>>>,
)
    requires
        results.len() == addrs.len(),
        spec_probe(addrs, timeout_secs, results) is Succeeded,
    ensures
        spec_probe_tried(addrs, timeout_secs, results).len() > 0,
        results[spec_probe_tried(addrs, timeout_secs, results).last().index] is Ok,
        spec_probe(addrs, timeout_secs, results) == (OutcomeView::Succeeded {
            address: addrs[spec_probe_tried(addrs, timeout_secs, results).last().index],
        }),
{
    lemma_finish_succeeds_at_last_try(spec_begin(addrs, timeout_secs), results);
}

proof fn lemma_finish_fails_at_the_end(prober: ProberView, results: Seq<Result<(), Seq<char>>>)
    requires
        prober.valid(),
        spec_finish(ProbeStepView::Attempt(prober), results) is Failed,
    ensures
        spec_tried(ProbeStepView::Attempt(prober), results).len() == prober.addrs.len()
            - prober.next,
        results[prober.addrs.len() - 1] is Err,
        spec_finish(ProbeStepView::Attempt(prober), results) == (OutcomeView::Failed {
            reason: refused_reason(results[prober.addrs.len() - 1]->Err_0),
        }),
    decreases prober.addrs.len() - prober.next,
{
    reveal_with_fuel(spec_finish, 2);
    reveal_with_fuel(spec_tried, 2);
    if let ProbeStepView::Attempt(onward) = spec_attempted(prober, results[prober.next]) {
        lemma_finish_fails_at_the_end(onward, results);
    }
}

/// A probe of at least one address fails only after the last address
/// refused, with an attempt made on every address.
pub proof fn lemma_failure_needs_a_refusal(
    addrs: Seq<AddressView>,
    timeout_secs: u64,
    results: Seq<Result<(), Seq<char>>>,
)
    requires
        addrs.len() > 0,
        results.len() == addrs.len(),
        spec_probe(addrs, timeout_secs, results) is Failed,
    ensures
        spec_probe_tried(addrs, timeout_secs, results).len() == addrs.len(),
        results[addrs.len() - 1] is Err,
        spec_probe(addrs, timeout_secs, results) == (OutcomeView::Failed {
            reason: refused_reason(results[addrs.len() - 1]->Err_0),
        }),
{
    lemma_finish_fails_at_the_end(ProberView { addrs, timeout_secs, next: 0 }, results);
}

} // verus!

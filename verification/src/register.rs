//! Registering a domain, step by step.
//!
//! A registration is a state machine. It is started with what to register,
//! and from then on takes one event at a time and answers with the next
//! action. The caller performs the action (sends the call, asks the operator,
//! waits) and hands back what came of it.

use crate::client::{
    check_task_call, check_task_params, find_domains_call, find_domains_params, read_reply,
    register_domain_call, register_domain_params, reply_outcome, Outcome,
};
use crate::error::{Failure, NjallaError};
use crate::text::{affirmative, is_affirmative, joined, str_eq};
use crate::types::{
    ApiRequest, ApiRequestView, MarketDomain, MarketDomainView, MarketDomainsResult,
    RegisterResult, TaskStatus, TaskStatusView, views,
};
use vstd::prelude::*;

verus! {

/// Poll interval for checking task status.
pub const POLL_INTERVAL_SECS: u64 = 2;

/// What to register: a domain, for a number of years from 1 to 10.
#[derive(Debug)]
pub struct RegistrationRequest {
    domain: String,
    years: i32,
}

impl RegistrationRequest {
    #[verifier::type_invariant]
    spec fn years_in_range(&self) -> bool {
        1 <= self.years <= 10
    }

    /// The domain to register.
    pub closed spec fn domain_text(&self) -> Seq<char> {
        self.domain@
    }

    /// The number of years to register it for.
    pub closed spec fn years_count(&self) -> i32 {
        self.years
    }

    /// A request to register `domain` for `years` years, if `years` is from 1
    /// to 10.
    pub fn new(domain: &str, years: i32) -> (r: Option<RegistrationRequest>)
        ensures
            match r {
                Some(request) => 1 <= years <= 10 && request.domain_text() == domain@
                    && request.years_count() == years,
                None => !(1 <= years <= 10),
            },
    {
        if 1 <= years && years <= 10 {
            Some(RegistrationRequest { domain: String::from_str(domain), years })
        } else {
            None
        }
    }

    /// The domain to register.
    pub fn domain(&self) -> (domain: &str)
        ensures
            domain@ == self.domain_text(),
    {
        self.domain.as_str()
    }

    /// The number of years to register it for.
    pub fn years(&self) -> (years: i32)
        ensures
            years == self.years_count(),
            1 <= years <= 10,
    {
        proof {
            use_type_invariant(self);
        }
        self.years
    }
}

/// What a registration costs, as shown to the operator before it is made.
#[derive(Debug, Clone)]
pub struct Quote {
    /// The domain.
    pub domain: String,
    /// Price in EUR per year.
    pub price: i32,
    /// The number of years.
    pub years: i32,
    /// Price in EUR for all the years.
    pub total: i64,
}

/// What a `Quote` holds, as contracts see it.
pub ghost struct QuoteView {
    pub domain: Seq<char>,
    pub price: int,
    pub years: int,
    pub total: int,
}

impl View for Quote {
    type V = QuoteView;

    open spec fn view(&self) -> QuoteView {
        QuoteView {
            domain: self.domain@,
            price: self.price as int,
            years: self.years as int,
            total: self.total as int,
        }
    }
}

/// The first of `results` whose name is `domain`.
pub open spec fn first_named(results: Seq<MarketDomainView>, domain: Seq<char>) -> Option<
    MarketDomainView,
>
    decreases results.len(),
{
    if results.len() == 0 {
        None
    } else if results.first().name == domain {
        Some(results.first())
    } else {
        first_named(results.drop_first(), domain)
    }
}

/// Why `domain` cannot be registered, given its status.
pub open spec fn unavailable_reason(domain: Seq<char>, status: Seq<char>) -> Seq<char> {
    if status == "taken"@ {
        domain + " is already registered"@
    } else if status == "in progress"@ {
        domain + " registration is already in progress"@
    } else if status == "failed"@ {
        domain + " registration previously failed"@
    } else {
        domain + " is not available (status: "@ + status + ")"@
    }
}

/// What the search results say of registering `domain` for `years` years: the
/// quote, if the results hold the domain and it is available.
pub open spec fn quoted(results: Seq<MarketDomainView>, domain: Seq<char>, years: int) -> Result<
    QuoteView,
    Failure,
> {
    match first_named(results, domain) {
        None => Err(Failure::DomainNotAvailable(domain + " not found in search results"@)),
        Some(info) => if info.status == "available"@ {
            Ok(QuoteView { domain, price: info.price, years, total: info.price * years })
        } else {
            Err(Failure::DomainNotAvailable(unavailable_reason(domain, info.status)))
        },
    }
}

/// Entries that do not bear the name do not count.
pub proof fn lemma_first_named_skip(results: Seq<MarketDomainView>, domain: Seq<char>, n: int)
    requires
        0 <= n <= results.len(),
        forall|k: int| 0 <= k < n ==> results[k].name != domain,
    ensures
        first_named(results, domain) == first_named(results.skip(n), domain),
    decreases n,
{
    if n == 0 {
        assert(results.skip(0) =~= results);
    } else {
        let rest = results.drop_first();
        assert forall|k: int| 0 <= k < n - 1 implies rest[k].name != domain by {
            assert(rest[k] == results[k + 1]);
        }
        lemma_first_named_skip(rest, domain, n - 1);
        assert(rest.skip(n - 1) =~= results.skip(n));
    }
}

/// Why `domain` cannot be registered, given its status.
pub fn reason_unavailable(domain: &str, status: &str) -> (reason: String)
    ensures
        reason@ == unavailable_reason(domain@, status@),
{
    if str_eq(status, "taken") {
        joined(domain, " is already registered")
    } else if str_eq(status, "in progress") {
        joined(domain, " registration is already in progress")
    } else if str_eq(status, "failed") {
        joined(domain, " registration previously failed")
    } else {
        let mut reason = joined(domain, " is not available (status: ");
        reason.append(status);
        reason.append(")");
        reason
    }
}

/// Looks `domain` up in the search results and prices its registration.
pub fn check_availability(results: &Vec<MarketDomain>, domain: &str, years: i32) -> (r: Result<
    Quote,
    NjallaError,
>)
    ensures
        match r {
            Ok(quote) => quoted(views(results@), domain@, years as int) == Ok::<QuoteView, Failure>(
                quote@,
            ),
            Err(e) => quoted(views(results@), domain@, years as int) == Err::<QuoteView, Failure>(
                e@,
            ),
        },
{
    let ghost listed = views(results@);
    let mut i: usize = 0;
    while i < results.len()
        invariant
            i <= results.len(),
            listed == views(results@),
            forall|k: int| 0 <= k < i ==> listed[k].name != domain@,
        decreases results.len() - i,
    {
        let info = &results[i];
        if str_eq(info.name.as_str(), domain) {
            proof {
                lemma_first_named_skip(listed, domain@, i as int);
                assert(listed.skip(i as int).first() == info@);
            }
            if str_eq(info.status.as_str(), "available") {
                let price: i64 = info.price as i64;
                let count: i64 = years as i64;
                assert(-0x4000_0000_0000_0000 <= price * count <= 0x4000_0000_0000_0000)
                    by (nonlinear_arith)
                    requires
                        -0x8000_0000 <= price <= 0x7fff_ffff,
                        -0x8000_0000 <= count <= 0x7fff_ffff,
                ;
                return Ok(
                    Quote {
                        domain: String::from_str(domain),
                        price: info.price,
                        years,
                        total: price * count,
                    },
                );
            } else {
                return Err(
                    NjallaError::DomainNotAvailable(
                        reason_unavailable(domain, info.status.as_str()),
                    ),
                );
            }
        }
        i = i + 1;
    }
    proof {
        lemma_first_named_skip(listed, domain@, listed.len() as int);
    }
    Err(NjallaError::DomainNotAvailable(joined(domain, " not found in search results")))
}

/// How a registration ended, where it did not end in an error.
#[derive(Debug, Clone)]
pub enum RegistrationOutcome {
    /// The operator declined; nothing was registered.
    Cancelled,
    /// The registration was submitted and is pending, under `task_id`.
    Submitted { domain: String, task_id: String },
    /// The registration was submitted under `task_id`, and completed.
    Completed { domain: String, task_id: String },
}

/// What a `RegistrationOutcome` holds, as contracts see it.
pub ghost enum RegistrationOutcomeView {
    Cancelled,
    Submitted { domain: Seq<char>, task_id: Seq<char> },
    Completed { domain: Seq<char>, task_id: Seq<char> },
}

impl View for RegistrationOutcome {
    type V = RegistrationOutcomeView;

    open spec fn view(&self) -> RegistrationOutcomeView {
        match self {
            RegistrationOutcome::Cancelled => RegistrationOutcomeView::Cancelled,
            RegistrationOutcome::Submitted { domain, task_id } => RegistrationOutcomeView::Submitted {
                domain: domain@,
                task_id: task_id@,
            },
            RegistrationOutcome::Completed { domain, task_id } => RegistrationOutcomeView::Completed {
                domain: domain@,
                task_id: task_id@,
            },
        }
    }
}

/// Where a registration stands.
#[derive(Debug, Clone)]
pub enum Phase {
    /// The search was asked for; its reply is awaited.
    Checking,
    /// The operator was asked; the answer is awaited.
    AwaitingConfirmation,
    /// The registration was submitted; its reply is awaited.
    Submitting,
    /// The task is being polled; a reading of the clock is awaited.
    Watching { task_id: String },
    /// The task is being polled; the reply to a check is awaited.
    Polling { task_id: String },
    /// Ended: the registration was submitted and is not waited for.
    Submitted,
    /// Ended: the registration completed.
    Completed,
    /// Ended: an error occurred, or the task failed.
    Failed,
    /// Ended: the task did not reach an end in time.
    TimedOut,
    /// Ended: the operator declined.
    Cancelled,
}

/// What a `Phase` holds, as contracts see it.
pub ghost enum PhaseView {
    Checking,
    AwaitingConfirmation,
    Submitting,
    Watching { task_id: Seq<char> },
    Polling { task_id: Seq<char> },
    Submitted,
    Completed,
    Failed,
    TimedOut,
    Cancelled,
}

impl View for Phase {
    type V = PhaseView;

    open spec fn view(&self) -> PhaseView {
        match self {
            Phase::Checking => PhaseView::Checking,
            Phase::AwaitingConfirmation => PhaseView::AwaitingConfirmation,
            Phase::Submitting => PhaseView::Submitting,
            Phase::Watching { task_id } => PhaseView::Watching { task_id: task_id@ },
            Phase::Polling { task_id } => PhaseView::Polling { task_id: task_id@ },
            Phase::Submitted => PhaseView::Submitted,
            Phase::Completed => PhaseView::Completed,
            Phase::Failed => PhaseView::Failed,
            Phase::TimedOut => PhaseView::TimedOut,
            Phase::Cancelled => PhaseView::Cancelled,
        }
    }
}

impl PhaseView {
    /// Whether the registration has ended.
    pub open spec fn ended(self) -> bool {
        self is Submitted || self is Completed || self is Failed || self is TimedOut
            || self is Cancelled
    }
}

/// What the caller reports to a registration.
#[derive(Debug)]
pub enum Event {
    /// What came of the call: the bytes of the response body, or why there
    /// is none.
    Reply(Result<Vec<u8>, bitreq::Error>),
    /// The line that the operator typed.
    Answer(String),
    /// The time since the clock was started: whole seconds, and the
    /// nanoseconds beyond them.
    Elapsed { secs: u64, nanos: u32 },
}

/// What a registration asks the caller to do next.
#[derive(Debug)]
pub enum Action {
    /// Make this call, and report its reply.
    Call(ApiRequest),
    /// Show this quote, ask whether to proceed, and report the answer.
    Confirm(Quote),
    /// Start the clock, and report its reading.
    StartClock,
    /// Wait for this many seconds, then report the reading of the clock.
    Sleep { secs: u64 },
    /// The registration has ended, so.
    Finish(RegistrationOutcome),
    /// The registration has ended in this error.
    Fail(NjallaError),
}

/// What a `Action` holds, as contracts see it.
pub ghost enum ActionView {
    Call(ApiRequestView),
    Confirm(QuoteView),
    StartClock,
    Sleep { secs: u64 },
    Finish(RegistrationOutcomeView),
    Fail(Failure),
}

impl View for Action {
    type V = ActionView;

    open spec fn view(&self) -> ActionView {
        match self {
            Action::Call(call) => ActionView::Call(call@),
            Action::Confirm(quote) => ActionView::Confirm(quote@),
            Action::StartClock => ActionView::StartClock,
            Action::Sleep { secs } => ActionView::Sleep { secs: *secs },
            Action::Finish(outcome) => ActionView::Finish(outcome@),
            Action::Fail(e) => ActionView::Fail(e@),
        }
    }
}

/// A registration under way.
#[derive(Debug)]
pub struct Registration {
    domain: String,
    years: i32,
    confirm: bool,
    wait: bool,
    timeout: u64,
    phase: Phase,
}

/// What a `Registration` holds, as contracts see it.
pub ghost struct RegistrationView {
    /// The domain to register.
    pub domain: Seq<char>,
    /// For how many years.
    pub years: i32,
    /// Whether the operator is not asked.
    pub confirm: bool,
    /// Whether the end of the task is waited for.
    pub wait: bool,
    /// How long it is waited for, in seconds.
    pub timeout: u64,
    /// Where the registration stands.
    pub phase: PhaseView,
}

impl View for Registration {
    type V = RegistrationView;

    closed spec fn view(&self) -> RegistrationView {
        RegistrationView {
            domain: self.domain@,
            years: self.years,
            confirm: self.confirm,
            wait: self.wait,
            timeout: self.timeout,
            phase: self.phase@,
        }
    }
}

/// Whether a reading of the clock is beyond `timeout` seconds.
pub open spec fn beyond(secs: u64, nanos: u32, timeout: u64) -> bool {
    secs > timeout || (secs == timeout && nanos > 0)
}

impl RegistrationView {
    /// This registration in another phase.
    pub open spec fn at(self, phase: PhaseView) -> RegistrationView {
        RegistrationView { phase, ..self }
    }

    /// The step that ends the registration in `failure`.
    pub open spec fn fail(self, failure: Failure) -> (RegistrationView, ActionView) {
        (self.at(PhaseView::Failed), ActionView::Fail(failure))
    }

    /// The step that submits the registration.
    pub open spec fn submit(self) -> (RegistrationView, ActionView) {
        (
            self.at(PhaseView::Submitting),
            ActionView::Call(
                ApiRequestView {
                    method: "register-domain"@,
                    params: register_domain_params(self.domain, self.years),
                },
            ),
        )
    }

    /// The step that asks for the state of the task.
    pub open spec fn poll(self, task_id: Seq<char>) -> (RegistrationView, ActionView) {
        (
            self.at(PhaseView::Polling { task_id }),
            ActionView::Call(
                ApiRequestView { method: "check-task"@, params: check_task_params(task_id) },
            ),
        )
    }

    /// The first step: the search for the domain.
    pub open spec fn begin(
        domain: Seq<char>,
        years: i32,
        confirm: bool,
        wait: bool,
        timeout: u64,
    ) -> (RegistrationView, ActionView) {
        (
            RegistrationView { domain, years, confirm, wait, timeout, phase: PhaseView::Checking },
            ActionView::Call(
                ApiRequestView { method: "find-domains"@, params: find_domains_params(domain) },
            ),
        )
    }

    /// The step after the search ended as `found`. A search that failed ends
    /// the registration; so do results that do not hold the domain, or hold
    /// it as not available. Else the operator is asked, or, where that is
    /// waived, the registration is submitted.
    pub open spec fn after_search(self, found: Outcome<Seq<MarketDomainView>>) -> (
        RegistrationView,
        ActionView,
    ) {
        match found {
            Outcome::Accepted(results) => match quoted(results, self.domain, self.years as int) {
                Err(failure) => self.fail(failure),
                Ok(quote) => if self.confirm {
                    self.submit()
                } else {
                    (self.at(PhaseView::AwaitingConfirmation), ActionView::Confirm(quote))
                },
            },
            failed => self.fail(failed.failure().unwrap()),
        }
    }

    /// The step after the operator answered: a yes submits the registration,
    /// anything else cancels it.
    pub open spec fn after_answer(self, yes: bool) -> (RegistrationView, ActionView) {
        if yes {
            self.submit()
        } else {
            (
                self.at(PhaseView::Cancelled),
                ActionView::Finish(RegistrationOutcomeView::Cancelled),
            )
        }
    }

    /// The step after the submission ended as `submitted`. A submission that
    /// failed ends the registration. Else the task is reported as pending,
    /// or, where its end is waited for, the clock is started.
    pub open spec fn after_submission(self, submitted: Outcome<Seq<char>>) -> (
        RegistrationView,
        ActionView,
    ) {
        match submitted {
            Outcome::Accepted(task_id) => if self.wait {
                (self.at(PhaseView::Watching { task_id }), ActionView::StartClock)
            } else {
                (
                    self.at(PhaseView::Submitted),
                    ActionView::Finish(
                        RegistrationOutcomeView::Submitted { domain: self.domain, task_id },
                    ),
                )
            },
            failed => self.fail(failed.failure().unwrap()),
        }
    }

    /// The step after the clock was read: beyond the timeout the registration
    /// ends, timed out; else the state of the task is asked for.
    pub open spec fn after_reading(self, task_id: Seq<char>, secs: u64, nanos: u32) -> (
        RegistrationView,
        ActionView,
    ) {
        if beyond(secs, nanos, self.timeout) {
            (
                self.at(PhaseView::TimedOut),
                ActionView::Fail(
                    Failure::RegistrationTimeout { domain: self.domain, timeout_secs: self.timeout },
                ),
            )
        } else {
            self.poll(task_id)
        }
    }

    /// The step after the check of the task ended as `checked`. A check that
    /// failed ends the registration; so does a task that completed, or
    /// failed. In any other state the task is checked again after the poll
    /// interval.
    pub open spec fn after_check(self, task_id: Seq<char>, checked: Outcome<TaskStatusView>) -> (
        RegistrationView,
        ActionView,
    ) {
        match checked {
            Outcome::Accepted(task) => if task.status == "completed"@ {
                (
                    self.at(PhaseView::Completed),
                    ActionView::Finish(
                        RegistrationOutcomeView::Completed { domain: self.domain, task_id },
                    ),
                )
            } else if task.status == "failed"@ {
                self.fail(Failure::ApiRejected("Registration failed for "@ + self.domain))
            } else {
                (
                    self.at(PhaseView::Watching { task_id }),
                    ActionView::Sleep { secs: POLL_INTERVAL_SECS },
                )
            },
            failed => self.fail(failed.failure().unwrap()),
        }
    }

    /// Whether `event` is of the kind that the registration waits for.
    pub open spec fn awaits(self, event: Event) -> bool {
        match self.phase {
            PhaseView::Checking | PhaseView::Submitting | PhaseView::Polling { .. } => event
                is Reply,
            PhaseView::AwaitingConfirmation => event is Answer,
            PhaseView::Watching { .. } => event is Elapsed,
            _ => false,
        }
    }

    /// The step that `event` brings about: the registration after it, and
    /// the action that it asks for.
    pub open spec fn next(self, event: Event) -> (RegistrationView, ActionView)
        recommends
            self.awaits(event),
    {
        match (self.phase, event) {
            (PhaseView::Checking, Event::Reply(reply)) => self.after_search(
                reply_outcome::<MarketDomainsResult>(reply),
            ),
            (PhaseView::AwaitingConfirmation, Event::Answer(line)) => self.after_answer(
                affirmative(line@),
            ),
            (PhaseView::Submitting, Event::Reply(reply)) => self.after_submission(
                reply_outcome::<RegisterResult>(reply),
            ),
            (PhaseView::Watching { task_id }, Event::Elapsed { secs, nanos }) => self.after_reading(
                task_id,
                secs,
                nanos,
            ),
            (PhaseView::Polling { task_id }, Event::Reply(reply)) => self.after_check(
                task_id,
                reply_outcome::<TaskStatus>(reply),
            ),
            _ => arbitrary(),
        }
    }
}

impl Registration {
    /// Starts a registration. The action is the search for the domain, whose
    /// reply is the first event.
    ///
    /// With `confirm` the operator is not asked. With `wait` the end of the
    /// task is waited for, for `timeout` seconds.
    pub fn start(request: RegistrationRequest, confirm: bool, wait: bool, timeout: u64) -> (r: (
        Registration,
        Action,
    ))
        ensures
            (r.0@, r.1@) == RegistrationView::begin(
                request.domain_text(),
                request.years_count(),
                confirm,
                wait,
                timeout,
            ),
            1 <= r.0@.years <= 10,
    {
        let years = request.years();
        let search = find_domains_call(request.domain());
        let registration = Registration {
            domain: String::from_str(request.domain()),
            years,
            confirm,
            wait,
            timeout,
            phase: Phase::Checking,
        };
        (registration, Action::Call(search))
    }

    /// Where the registration stands.
    pub fn phase(&self) -> (phase: &Phase)
        ensures
            phase@ == self@.phase,
    {
        &self.phase
    }

    /// The domain that is registered.
    pub fn domain(&self) -> (domain: &str)
        ensures
            domain@ == self@.domain,
    {
        self.domain.as_str()
    }

    /// Whether the registration has ended.
    pub fn has_ended(&self) -> (ended: bool)
        ensures
            ended == self@.phase.ended(),
    {
        match self.phase {
            Phase::Submitted | Phase::Completed | Phase::Failed | Phase::TimedOut
            | Phase::Cancelled => true,
            _ => false,
        }
    }

    /// Whether `event` is of the kind that the registration waits for.
    pub fn awaits(&self, event: &Event) -> (yes: bool)
        ensures
            yes == self@.awaits(*event),
    {
        match self.phase {
            Phase::Checking | Phase::Submitting | Phase::Polling { .. } => match event {
                Event::Reply(_) => true,
                _ => false,
            },
            Phase::AwaitingConfirmation => match event {
                Event::Answer(_) => true,
                _ => false,
            },
            Phase::Watching { .. } => match event {
                Event::Elapsed { .. } => true,
                _ => false,
            },
            _ => false,
        }
    }

    fn at(self, phase: Phase) -> (r: Registration)
        ensures
            r@ == self@.at(phase@),
    {
        Registration {
            domain: self.domain,
            years: self.years,
            confirm: self.confirm,
            wait: self.wait,
            timeout: self.timeout,
            phase,
        }
    }

    fn fail(self, e: NjallaError) -> (r: (Registration, Action))
        ensures
            (r.0@, r.1@) == self@.fail(e@),
    {
        (self.at(Phase::Failed), Action::Fail(e))
    }

    fn submit(self) -> (r: (Registration, Action))
        ensures
            (r.0@, r.1@) == self@.submit(),
    {
        let call = register_domain_call(self.domain.as_str(), self.years);
        (self.at(Phase::Submitting), Action::Call(call))
    }

    fn after_search(self, reply: Result<Vec<u8>, bitreq::Error>) -> (r: (Registration, Action))
        ensures
            (r.0@, r.1@) == self@.after_search(reply_outcome::<MarketDomainsResult>(reply)),
    {
        match read_reply::<MarketDomainsResult>(reply) {
            Err(e) => self.fail(e),
            Ok(found) => match check_availability(&found.domains, self.domain.as_str(), self.years) {
                Err(e) => self.fail(e),
                Ok(quote) => {
                    if self.confirm {
                        self.submit()
                    } else {
                        (self.at(Phase::AwaitingConfirmation), Action::Confirm(quote))
                    }
                },
            },
        }
    }

    fn after_answer(self, line: &str) -> (r: (Registration, Action))
        ensures
            (r.0@, r.1@) == self@.after_answer(affirmative(line@)),
    {
        if is_affirmative(line) {
            self.submit()
        } else {
            (self.at(Phase::Cancelled), Action::Finish(RegistrationOutcome::Cancelled))
        }
    }

    fn after_submission(self, reply: Result<Vec<u8>, bitreq::Error>) -> (r: (Registration, Action))
        ensures
            (r.0@, r.1@) == self@.after_submission(reply_outcome::<RegisterResult>(reply)),
    {
        match read_reply::<RegisterResult>(reply) {
            Err(e) => self.fail(e),
            Ok(submitted) => {
                if self.wait {
                    (self.at(Phase::Watching { task_id: submitted.task }), Action::StartClock)
                } else {
                    let outcome = RegistrationOutcome::Submitted {
                        domain: self.domain.clone(),
                        task_id: submitted.task,
                    };
                    (self.at(Phase::Submitted), Action::Finish(outcome))
                }
            },
        }
    }

    fn after_reading(self, task_id: String, secs: u64, nanos: u32) -> (r: (Registration, Action))
        ensures
            (r.0@, r.1@) == self@.after_reading(task_id@, secs, nanos),
    {
        if secs > self.timeout || (secs == self.timeout && nanos > 0) {
            let e = NjallaError::RegistrationTimeout {
                domain: self.domain.clone(),
                timeout_secs: self.timeout,
            };
            (self.at(Phase::TimedOut), Action::Fail(e))
        } else {
            let call = check_task_call(task_id.as_str());
            (self.at(Phase::Polling { task_id }), Action::Call(call))
        }
    }

    fn after_check(self, task_id: String, reply: Result<Vec<u8>, bitreq::Error>) -> (r: (
        Registration,
        Action,
    ))
        ensures
            (r.0@, r.1@) == self@.after_check(task_id@, reply_outcome::<TaskStatus>(reply)),
    {
        match read_reply::<TaskStatus>(reply) {
            Err(e) => self.fail(e),
            Ok(task) => {
                if str_eq(task.status.as_str(), "completed") {
                    let outcome = RegistrationOutcome::Completed {
                        domain: self.domain.clone(),
                        task_id,
                    };
                    (self.at(Phase::Completed), Action::Finish(outcome))
                } else if str_eq(task.status.as_str(), "failed") {
                    let message = joined("Registration failed for ", self.domain.as_str());
                    self.fail(NjallaError::Api { message })
                } else {
                    (
                        self.at(Phase::Watching { task_id }),
                        Action::Sleep { secs: POLL_INTERVAL_SECS },
                    )
                }
            },
        }
    }

    /// Takes one event if it is of the kind that the registration waits for,
    /// as `step` does; else hands the registration and the event back as they
    /// are.
    pub fn try_step(self, event: Event) -> (r: Result<(Registration, Action), (Registration, Event)>)
        ensures
            match r {
                Ok(stepped) => self@.awaits(event) && (stepped.0@, stepped.1@) == self@.next(event),
                Err(untouched) => !self@.awaits(event) && untouched == (self, event),
            },
    {
        if self.awaits(&event) {
            Ok(self.step(event))
        } else {
            Err((self, event))
        }
    }

    /// Takes one event, and answers with the registration after it and the
    /// next action. Once the action is `Finish` or `Fail` the registration
    /// has ended, and takes no more events.
    pub fn step(self, event: Event) -> (r: (Registration, Action))
        requires
            self@.awaits(event),
        ensures
            (r.0@, r.1@) == self@.next(event),
    {
        match event {
            Event::Reply(reply) => match &self.phase {
                Phase::Checking => self.after_search(reply),
                Phase::Submitting => self.after_submission(reply),
                Phase::Polling { task_id } => {
                    let task_id = task_id.clone();
                    self.after_check(task_id, reply)
                },
                _ => unreached(),
            },
            Event::Answer(line) => self.after_answer(line.as_str()),
            Event::Elapsed { secs, nanos } => match &self.phase {
                Phase::Watching { task_id } => {
                    let task_id = task_id.clone();
                    self.after_reading(task_id, secs, nanos)
                },
                _ => unreached(),
            },
        }
    }
}

/// A step ends the registration exactly when its action is `Finish` or
/// `Fail`.
pub proof fn lemma_ends_with_last_action(s: RegistrationView, event: Event)
    requires
        s.awaits(event),
    ensures
        s.next(event).0.phase.ended() <==> (s.next(event).1 is Finish || s.next(event).1 is Fail),
        s.next(event).0 == s.at(s.next(event).0.phase),
{
}

/// Nothing is tried twice: a call that fails ends the registration, in the
/// failure of the call.
pub proof fn lemma_failed_call_ends_registration(
    s: RegistrationView,
    reply: Result<Vec<u8>, bitreq::Error>,
    failure: Failure,
)
    requires
        s.awaits(Event::Reply(reply)),
        match s.phase {
            PhaseView::Checking => reply_outcome::<MarketDomainsResult>(reply).failure(),
            PhaseView::Submitting => reply_outcome::<RegisterResult>(reply).failure(),
            _ => reply_outcome::<TaskStatus>(reply).failure(),
        } == Some(failure),
    ensures
        s.next(Event::Reply(reply)) == s.fail(failure),
{
}

/// The registration is submitted only with consent: after a search that
/// found the domain available, where the operator is not asked, or after the
/// operator said yes.
pub proof fn lemma_submitted_with_consent(s: RegistrationView, event: Event)
    requires
        s.awaits(event),
        s.next(event).1 matches ActionView::Call(call) && call.method == "register-domain"@,
    ensures
        s.phase is Checking || s.phase is AwaitingConfirmation,
        s.phase is Checking ==> s.confirm,
        s.phase is AwaitingConfirmation ==> (event matches Event::Answer(line) && affirmative(
            line@,
        )),
        s.next(event) == s.submit(),
{
    reveal_strlit("register-domain");
    reveal_strlit("check-task");
    reveal_strlit("find-domains");
    assert("register-domain"@.len() != "check-task"@.len());
}

/// A reading of the clock beyond the timeout ends the polling: the
/// registration fails as timed out, with its domain and the timeout, and the
/// task is not asked for again.
pub proof fn lemma_timeout_ends_polling(s: RegistrationView, secs: u64, nanos: u32)
    requires
        s.phase is Watching,
        beyond(secs, nanos, s.timeout),
    ensures
        s.next(Event::Elapsed { secs, nanos }) == (
            s.at(PhaseView::TimedOut),
            ActionView::Fail(
                Failure::RegistrationTimeout { domain: s.domain, timeout_secs: s.timeout },
            ),
        ),
{
}

/// A check that finds the task neither completed nor failed changes nothing:
/// after the poll interval, and a reading of the clock within the timeout,
/// the registration is where it was, and asks for the same check again.
pub proof fn lemma_poll_changes_nothing(
    s: RegistrationView,
    reply: Result<Vec<u8>, bitreq::Error>,
    secs: u64,
    nanos: u32,
)
    requires
        s.phase is Polling,
        reply_outcome::<TaskStatus>(reply) matches Outcome::Accepted(task) && task.status
            != "completed"@ && task.status != "failed"@,
        !beyond(secs, nanos, s.timeout),
    ensures
        s.next(Event::Reply(reply)).1 == (ActionView::Sleep { secs: POLL_INTERVAL_SECS }),
        s.next(Event::Reply(reply)).0.next(Event::Elapsed { secs, nanos }) == s.poll(
            s.phase->Polling_task_id,
        ),
        s.poll(s.phase->Polling_task_id).0 == s,
{
}

/// How often the task is checked while the clock reads `readings`, one
/// reading before each check, and each check finds the task still under way.
pub open spec fn checks_made(s: RegistrationView, task_id: Seq<char>, readings: Seq<(u64, u32)>) -> nat
    decreases readings.len(),
{
    if readings.len() == 0 {
        0
    } else if s.after_reading(task_id, readings.first().0, readings.first().1).1 is Call {
        1 + checks_made(s, task_id, readings.drop_first())
    } else {
        0
    }
}

/// The polling is bounded by the clock alone. Where each reading is later
/// than the one before by the poll interval or more, as it is after a sleep
/// of that length, the task is checked no more often than the intervals that
/// fit into the timeout, and once more.
pub proof fn lemma_polling_is_bounded(
    s: RegistrationView,
    task_id: Seq<char>,
    readings: Seq<(u64, u32)>,
)
    requires
        forall|i: int| 0 <= i < readings.len() ==> readings[i].0 >= i * POLL_INTERVAL_SECS,
    ensures
        checks_made(s, task_id, readings) <= s.timeout / POLL_INTERVAL_SECS + 1,
{
    lemma_checks_from(s, task_id, readings, 0);
}

proof fn lemma_checks_from(
    s: RegistrationView,
    task_id: Seq<char>,
    readings: Seq<(u64, u32)>,
    passed: nat,
)
    requires
        forall|i: int|
            0 <= i < readings.len() ==> readings[i].0 >= (passed + i) * POLL_INTERVAL_SECS,
    ensures
        passed + checks_made(s, task_id, readings) <= s.timeout / POLL_INTERVAL_SECS + 1
            || checks_made(s, task_id, readings) == 0,
    decreases readings.len(),
{
    if readings.len() > 0 && s.after_reading(task_id, readings.first().0, readings.first().1).1
        is Call {
        let rest = readings.drop_first();
        assert forall|i: int| 0 <= i < rest.len() implies rest[i].0 >= (passed + 1 + i)
            * POLL_INTERVAL_SECS by {
            assert(rest[i] == readings[i + 1]);
        }
        lemma_checks_from(s, task_id, rest, passed + 1);
        assert(readings[0].0 >= passed * POLL_INTERVAL_SECS);
        assert(!beyond(readings[0].0, readings[0].1, s.timeout));
    }
}

} // verus!

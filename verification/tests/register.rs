use njalla_cli::error::NjallaError;
use njalla_cli::register::{
    check_availability, reason_unavailable, Action, Event, Phase, Registration,
    RegistrationOutcome, RegistrationRequest, POLL_INTERVAL_SECS,
};
use njalla_cli::types::{ApiRequest, MarketDomain};

fn reply(body: &str) -> Event {
    Event::Reply(Ok(body.as_bytes().to_vec()))
}

fn search_reply(status: &str, price: i32) -> Event {
    reply(&format!(
        r#"{{"result": {{"domains": [{{"name": "example.com", "status": "{status}", "price": {price}}}]}}}}"#
    ))
}

fn registered_reply() -> Event {
    reply(r#"{"result": {"task": "task-abc123"}}"#)
}

fn status_reply(status: &str) -> Event {
    reply(&format!(r#"{{"result": {{"id": "task-abc123", "status": "{status}"}}}}"#))
}

fn elapsed(secs: u64) -> Event {
    Event::Elapsed { secs, nanos: 1_000 }
}

fn start(years: i32, confirm: bool, wait: bool, timeout: u64) -> (Registration, Action) {
    let request = RegistrationRequest::new("example.com", years).unwrap();
    Registration::start(request, confirm, wait, timeout)
}

fn is_call(call: &ApiRequest, method: &str, params: &str) -> bool {
    let written: serde_json::Value =
        serde_json::from_str(&call.params.to_text().unwrap()).unwrap();
    let expected: serde_json::Value = serde_json::from_str(params).unwrap();
    call.method == method && written == expected
}

fn expect_call(action: &Action, method: &str, params: &str) {
    match action {
        Action::Call(call) => assert!(is_call(call, method, params), "{call:?}"),
        other => panic!("expected a call, got {other:?}"),
    }
}

/// Runs a registration up to the first reading of the clock.
fn submitted_and_waiting(timeout: u64) -> Registration {
    let (registration, _) = start(1, true, true, timeout);
    let (registration, _) = registration.step(search_reply("available", 15));
    let (registration, action) = registration.step(registered_reply());
    assert!(matches!(action, Action::StartClock));
    registration
}

#[test]
fn registration_starts_with_the_search() {
    let (registration, action) = start(2, false, false, 300);
    expect_call(&action, "find-domains", r#"{"query": "example.com"}"#);
    assert!(matches!(registration.phase(), Phase::Checking));
    assert_eq!(registration.domain(), "example.com");
    assert!(!registration.has_ended());
}

#[test]
fn available_domain_is_quoted_for_confirmation() {
    let (registration, _) = start(2, false, false, 300);
    let (registration, action) = registration.step(search_reply("available", 15));
    match action {
        Action::Confirm(quote) => {
            assert_eq!(quote.domain, "example.com");
            assert_eq!(quote.price, 15);
            assert_eq!(quote.years, 2);
            assert_eq!(quote.total, 30);
        }
        other => panic!("expected a quote, got {other:?}"),
    }
    assert!(matches!(registration.phase(), Phase::AwaitingConfirmation));
}

#[test]
fn taken_domain_fails_without_registering() {
    let (registration, _) = start(1, true, false, 300);
    let (registration, action) = registration.step(search_reply("taken", 15));
    assert!(matches!(
        action,
        Action::Fail(NjallaError::DomainNotAvailable(reason))
            if reason == "example.com is already registered"
    ));
    assert!(matches!(registration.phase(), Phase::Failed));
    assert!(registration.has_ended());
    assert!(!registration.awaits(&registered_reply()));
}

#[test]
fn declined_confirmation_cancels_without_registering() {
    let (registration, _) = start(1, false, false, 300);
    let (registration, _) = registration.step(search_reply("available", 15));
    let (registration, action) = registration.step(Event::Answer("n".to_string()));
    assert!(matches!(action, Action::Finish(RegistrationOutcome::Cancelled)));
    assert!(matches!(registration.phase(), Phase::Cancelled));
    assert!(registration.has_ended());
}

#[test]
fn affirmative_confirmation_submits() {
    for answer in ["y", "Y", "y\n", "  Y \r\n", "\ty"] {
        let (registration, _) = start(3, false, false, 300);
        let (registration, _) = registration.step(search_reply("available", 15));
        let (registration, action) = registration.step(Event::Answer(answer.to_string()));
        expect_call(&action, "register-domain", r#"{"domain": "example.com", "years": 3}"#);
        assert!(matches!(registration.phase(), Phase::Submitting));
    }
}

#[test]
fn anything_but_y_cancels() {
    for answer in ["", "\n", "yes", "no", "N", "y y", "yy", "ｙ"] {
        let (registration, _) = start(1, false, false, 300);
        let (registration, _) = registration.step(search_reply("available", 15));
        let (_, action) = registration.step(Event::Answer(answer.to_string()));
        assert!(matches!(action, Action::Finish(RegistrationOutcome::Cancelled)), "{answer:?}");
    }
}

#[test]
fn waived_confirmation_submits_at_once() {
    let (registration, _) = start(2, true, false, 300);
    let (registration, action) = registration.step(search_reply("available", 15));
    expect_call(&action, "register-domain", r#"{"domain": "example.com", "years": 2}"#);
    assert!(matches!(registration.phase(), Phase::Submitting));
}

#[test]
fn polling_times_out() {
    let mut registration = submitted_and_waiting(5);
    let mut polls = 0;
    let mut clock = 0;
    let failure = loop {
        let (next, action) = registration.step(elapsed(clock));
        match action {
            Action::Call(call) => {
                assert!(is_call(&call, "check-task", r#"{"id": "task-abc123"}"#));
                polls += 1;
            }
            Action::Fail(e) => {
                registration = next;
                break e;
            }
            other => panic!("unexpected {other:?}"),
        }
        let (next, action) = next.step(status_reply("pending"));
        match action {
            Action::Sleep { secs } => clock += secs,
            other => panic!("unexpected {other:?}"),
        }
        registration = next;
    };
    assert!(matches!(
        failure,
        NjallaError::RegistrationTimeout { domain, timeout_secs: 5 } if domain == "example.com"
    ));
    assert_eq!(polls, 3);
    assert_eq!(clock, 6);
    assert!(matches!(registration.phase(), Phase::TimedOut));
    assert!(registration.has_ended());
}

#[test]
fn second_poll_completes() {
    let registration = submitted_and_waiting(300);
    let (registration, action) = registration.step(elapsed(0));
    expect_call(&action, "check-task", r#"{"id": "task-abc123"}"#);
    let (registration, action) = registration.step(status_reply("pending"));
    assert!(matches!(action, Action::Sleep { secs: 2 }));
    assert_eq!(POLL_INTERVAL_SECS, 2);
    let (registration, action) = registration.step(elapsed(2));
    expect_call(&action, "check-task", r#"{"id": "task-abc123"}"#);
    let (registration, action) = registration.step(status_reply("completed"));
    assert!(matches!(
        action,
        Action::Finish(RegistrationOutcome::Completed { domain, task_id })
            if domain == "example.com" && task_id == "task-abc123"
    ));
    assert!(matches!(registration.phase(), Phase::Completed));
    assert!(registration.has_ended());
    assert!(!registration.awaits(&elapsed(4)));
    assert!(!registration.awaits(&status_reply("completed")));
}

#[test]
fn without_wait_submission_ends_pending() {
    let (registration, _) = start(1, true, false, 300);
    let (registration, _) = registration.step(search_reply("available", 15));
    let (registration, action) = registration.step(registered_reply());
    assert!(matches!(
        action,
        Action::Finish(RegistrationOutcome::Submitted { domain, task_id })
            if domain == "example.com" && task_id == "task-abc123"
    ));
    assert!(matches!(registration.phase(), Phase::Submitted));
    assert!(registration.has_ended());
    assert!(!registration.awaits(&elapsed(0)));
}

#[test]
fn domain_missing_from_results_fails() {
    let (registration, _) = start(1, true, false, 300);
    let (_, action) = registration.step(reply(
        r#"{"result": {"domains": [{"name": "example.net", "status": "available", "price": 9}]}}"#,
    ));
    assert!(matches!(
        action,
        Action::Fail(NjallaError::DomainNotAvailable(reason))
            if reason == "example.com not found in search results"
    ));
    let (registration, _) = start(1, true, false, 300);
    let (_, action) = registration.step(reply(r#"{"result": {"domains": []}}"#));
    assert!(matches!(action, Action::Fail(NjallaError::DomainNotAvailable(_))));
}

#[test]
fn unavailable_reasons() {
    assert_eq!(reason_unavailable("example.com", "taken"), "example.com is already registered");
    assert_eq!(
        reason_unavailable("example.com", "in progress"),
        "example.com registration is already in progress"
    );
    assert_eq!(
        reason_unavailable("example.com", "failed"),
        "example.com registration previously failed"
    );
    assert_eq!(
        reason_unavailable("example.com", "reserved"),
        "example.com is not available (status: reserved)"
    );
    assert_eq!(reason_unavailable("a.b", ""), "a.b is not available (status: )");
}

fn market(name: &str, status: &str, price: i32) -> MarketDomain {
    MarketDomain { name: name.to_string(), status: status.to_string(), price }
}

#[test]
fn availability_goes_by_the_first_exact_match() {
    let results = vec![
        market("www.example.com", "available", 1),
        market("example.com", "available", 15),
        market("example.com", "taken", 99),
    ];
    let quote = check_availability(&results, "example.com", 10).unwrap();
    assert_eq!(quote.price, 15);
    assert_eq!(quote.years, 10);
    assert_eq!(quote.total, 150);

    let results = vec![market("Example.com", "available", 15)];
    assert!(matches!(
        check_availability(&results, "example.com", 1),
        Err(NjallaError::DomainNotAvailable(reason))
            if reason == "example.com not found in search results"
    ));
}

#[test]
fn total_price_does_not_overflow() {
    let results = vec![market("example.com", "available", i32::MAX)];
    let quote = check_availability(&results, "example.com", 10).unwrap();
    assert_eq!(quote.total, 21_474_836_470);
    let results = vec![market("example.com", "available", i32::MIN)];
    let quote = check_availability(&results, "example.com", i32::MIN).unwrap();
    assert_eq!(quote.total, 4_611_686_018_427_387_904);
}

#[test]
fn failed_search_ends_the_registration() {
    let (registration, _) = start(1, true, true, 300);
    let (registration, action) =
        registration.step(Event::Reply(Err(bitreq::Error::AddressNotFound)));
    assert!(matches!(action, Action::Fail(NjallaError::Request(_))));
    assert!(matches!(registration.phase(), Phase::Failed));

    let (registration, _) = start(1, true, true, 300);
    let (_, action) = registration.step(reply("not json"));
    assert!(matches!(action, Action::Fail(NjallaError::Parse(_))));

    let (registration, _) = start(1, true, true, 300);
    let (_, action) = registration.step(reply(r#"{"error": {"message": "Invalid token"}}"#));
    assert!(matches!(
        action,
        Action::Fail(NjallaError::Api { message }) if message == "Invalid token"
    ));
}

#[test]
fn failed_submission_ends_the_registration() {
    let (registration, _) = start(1, true, true, 300);
    let (registration, _) = registration.step(search_reply("available", 15));
    let (registration, action) =
        registration.step(reply(r#"{"error": {"message": "Insufficient funds"}}"#));
    assert!(matches!(
        action,
        Action::Fail(NjallaError::Api { message }) if message == "Insufficient funds"
    ));
    assert!(matches!(registration.phase(), Phase::Failed));
}

#[test]
fn failed_task_ends_the_registration() {
    let registration = submitted_and_waiting(300);
    let (registration, _) = registration.step(elapsed(0));
    let (registration, action) = registration.step(status_reply("failed"));
    assert!(matches!(
        action,
        Action::Fail(NjallaError::Api { message })
            if message == "Registration failed for example.com"
    ));
    assert!(matches!(registration.phase(), Phase::Failed));
}

#[test]
fn failed_check_ends_the_registration() {
    let registration = submitted_and_waiting(300);
    let (registration, _) = registration.step(elapsed(0));
    let (registration, action) = registration.step(reply("{}"));
    assert!(matches!(
        action,
        Action::Fail(NjallaError::Api { message }) if message == "Missing result in response"
    ));
    assert!(registration.has_ended());
}

#[test]
fn unknown_status_keeps_polling() {
    for status in ["pending", "processing", "queued", "", "Completed"] {
        let registration = submitted_and_waiting(300);
        let (registration, _) = registration.step(elapsed(0));
        let (registration, action) = registration.step(status_reply(status));
        assert!(matches!(action, Action::Sleep { secs: 2 }), "{status:?}");
        assert!(matches!(registration.phase(), Phase::Watching { task_id } if task_id == "task-abc123"));
    }
}

#[test]
fn timeout_is_strict() {
    let registration = submitted_and_waiting(5);
    let (_, action) = registration.step(Event::Elapsed { secs: 5, nanos: 0 });
    assert!(matches!(action, Action::Call(_)));

    let registration = submitted_and_waiting(5);
    let (_, action) = registration.step(Event::Elapsed { secs: 5, nanos: 1 });
    assert!(matches!(action, Action::Fail(NjallaError::RegistrationTimeout { .. })));

    let registration = submitted_and_waiting(5);
    let (_, action) = registration.step(Event::Elapsed { secs: 4, nanos: 999_999_999 });
    assert!(matches!(action, Action::Call(_)));
}

#[test]
fn zero_timeout_ends_before_the_first_poll() {
    let registration = submitted_and_waiting(0);
    let (registration, action) = registration.step(Event::Elapsed { secs: 0, nanos: 120 });
    assert!(matches!(
        action,
        Action::Fail(NjallaError::RegistrationTimeout { domain, timeout_secs: 0 })
            if domain == "example.com"
    ));
    assert!(matches!(registration.phase(), Phase::TimedOut));
}

#[test]
fn pending_poll_leaves_the_registration_as_it_was() {
    let registration = submitted_and_waiting(300);
    let (registration, first) = registration.step(elapsed(0));
    let before = format!("{registration:?}");
    let (registration, _) = registration.step(status_reply("pending"));
    let (registration, second) = registration.step(elapsed(2));
    assert_eq!(format!("{registration:?}"), before);
    assert_eq!(format!("{first:?}"), format!("{second:?}"));
}

#[test]
fn years_must_be_from_one_to_ten() {
    assert!(RegistrationRequest::new("example.com", 0).is_none());
    assert!(RegistrationRequest::new("example.com", 11).is_none());
    assert!(RegistrationRequest::new("example.com", -1).is_none());
    let least = RegistrationRequest::new("example.com", 1).unwrap();
    assert_eq!(least.years(), 1);
    assert_eq!(least.domain(), "example.com");
    assert_eq!(RegistrationRequest::new("example.com", 10).unwrap().years(), 10);
}

#[test]
fn each_phase_awaits_its_own_event() {
    let (registration, _) = start(1, false, true, 300);
    assert!(registration.awaits(&registered_reply()));
    assert!(!registration.awaits(&Event::Answer("y".to_string())));
    assert!(!registration.awaits(&elapsed(0)));
    let (registration, _) = registration.step(search_reply("available", 15));
    assert!(registration.awaits(&Event::Answer("y".to_string())));
    assert!(!registration.awaits(&registered_reply()));
    let (registration, _) = registration.step(Event::Answer("y".to_string()));
    assert!(registration.awaits(&registered_reply()));
    let (registration, _) = registration.step(registered_reply());
    assert!(registration.awaits(&elapsed(0)));
    assert!(!registration.awaits(&registered_reply()));
    let (registration, _) = registration.step(elapsed(0));
    assert!(registration.awaits(&status_reply("pending")));
    assert!(!registration.awaits(&elapsed(0)));
}

#[test]
fn event_out_of_turn_is_handed_back() {
    let (registration, _) = start(1, false, true, 300);
    let (registration, event) = registration.try_step(Event::Answer("y".to_string())).unwrap_err();
    assert!(matches!(event, Event::Answer(line) if line == "y"));
    assert!(matches!(registration.phase(), Phase::Checking));
    let (registration, event) = registration.try_step(elapsed(3)).unwrap_err();
    assert!(matches!(event, Event::Elapsed { secs: 3, nanos: 1_000 }));
    let (registration, action) = registration.try_step(search_reply("available", 15)).unwrap();
    assert!(matches!(action, Action::Confirm(_)));
    assert!(matches!(registration.phase(), Phase::AwaitingConfirmation));
    let (registration, _) = registration.try_step(Event::Answer("n".to_string())).unwrap();
    assert!(registration.try_step(Event::Answer("y".to_string())).is_err());
}

#[test]
fn reply_that_is_no_utf8_ends_the_registration() {
    let (registration, _) = start(1, true, true, 300);
    let (registration, action) = registration.step(Event::Reply(Ok(vec![0xff, 0x00])));
    assert!(matches!(action, Action::Fail(NjallaError::Parse(_))));
    assert!(matches!(registration.phase(), Phase::Failed));
}

use aws_parameter_update::engine::{
    Action, Decision, Event, FetchEvent, FetchResponse, FetchedParameter, Outcome, ResponseField,
    StoreError, SyncEngine, UpsertEvent,
};
use aws_parameter_update::Parameter;

fn found(value: &str) -> FetchEvent {
    FetchEvent::Response(FetchResponse {
        parameter: Some(FetchedParameter { value: Some(value.to_string()) }),
    })
}

fn expect_upsert(action: Action) -> aws_parameter_update::parameter::PutRequest {
    match action {
        Action::Upsert { request } => request,
        other => panic!("expected an upsert action, got {:?}", other),
    }
}

fn expect_fetch(action: Action) -> aws_parameter_update::parameter::GetRequest {
    match action {
        Action::Fetch { request } => request,
        other => panic!("expected a fetch action, got {:?}", other),
    }
}

#[test]
fn absent_entry_issues_one_upsert_and_succeeds() {
    let entry = Parameter::new("alpha", "one", "first", false);
    let mut engine = SyncEngine::new(vec![entry]);

    let fetch = expect_fetch(engine.next_action());
    assert_eq!(fetch.name, "alpha".to_string());
    assert!(fetch.with_decryption);

    engine.step(Event::Fetch { event: FetchEvent::NotFound });

    let upsert = expect_upsert(engine.next_action());
    assert_eq!(upsert.name, "alpha".to_string());
    assert_eq!(upsert.value, "one".to_string());
    assert!(upsert.overwrite);

    engine.step(Event::Upsert { event: UpsertEvent::Accepted });

    assert!(matches!(engine.next_action(), Action::Finish));
    assert_eq!(
        engine.into_outcomes(),
        vec![Outcome::Success { name: "alpha".to_string() }]
    );
}

#[test]
fn equal_value_issues_no_upsert() {
    let entry = Parameter::new("alpha", "one", "first", false);
    let mut engine = SyncEngine::new(vec![entry]);

    engine.step(Event::Fetch { event: found("one") });

    assert!(matches!(engine.next_action(), Action::Finish));
    assert_eq!(
        engine.into_outcomes(),
        vec![Outcome::Success { name: "alpha".to_string() }]
    );
}

#[test]
fn whitespace_difference_issues_upsert_with_overwrite() {
    let entry = Parameter::new("alpha", "one", "first", false);
    let mut engine = SyncEngine::new(vec![entry]);

    engine.step(Event::Fetch { event: found("one ") });

    let upsert = expect_upsert(engine.next_action());
    assert_eq!(upsert.value, "one".to_string());
    assert!(upsert.overwrite);
}

#[test]
fn case_difference_issues_upsert_with_overwrite() {
    let entry = Parameter::new("alpha", "one", "first", false);
    let mut engine = SyncEngine::new(vec![entry]);

    engine.step(Event::Fetch { event: found("One") });

    let upsert = expect_upsert(engine.next_action());
    assert!(upsert.overwrite);

    engine.step(Event::Upsert { event: UpsertEvent::Accepted });
    assert_eq!(
        engine.into_outcomes(),
        vec![Outcome::Success { name: "alpha".to_string() }]
    );
}

#[test]
fn secure_entry_upsert_carries_secure_storage_type() {
    let entry = Parameter::new("secret", "hush", "quiet", true);
    let mut engine = SyncEngine::new(vec![entry]);

    engine.step(Event::Fetch { event: FetchEvent::NotFound });

    let upsert = expect_upsert(engine.next_action());
    assert_eq!(upsert.type_.label(), "SecureString".to_string());
    assert!(upsert.type_.is_secure());
}

#[test]
fn fetch_transport_failure_does_not_stop_the_batch() {
    let first = Parameter::new("alpha", "one", "first", false);
    let second = Parameter::new("beta", "two", "second", false);
    let mut engine = SyncEngine::new(vec![first, second]);

    engine.step(Event::Fetch {
        event: FetchEvent::Transport { message: "connection refused".to_string() },
    });

    let fetch = expect_fetch(engine.next_action());
    assert_eq!(fetch.name, "beta".to_string());

    engine.step(Event::Fetch { event: FetchEvent::NotFound });
    engine.step(Event::Upsert { event: UpsertEvent::Accepted });

    assert!(matches!(engine.next_action(), Action::Finish));
    assert_eq!(
        engine.into_outcomes(),
        vec![
            Outcome::Failure {
                name: "alpha".to_string(),
                error: StoreError::Transport { message: "connection refused".to_string() },
            },
            Outcome::Success { name: "beta".to_string() },
        ]
    );
}

#[test]
fn direct_argument_entry_against_empty_store() {
    let entry = Parameter::new("foo", "bar", "d", false);
    let mut engine = SyncEngine::new(vec![entry]);

    engine.step(Event::Fetch { event: FetchEvent::NotFound });

    let upsert = expect_upsert(engine.next_action());
    assert_eq!(upsert.type_.label(), "String".to_string());
    assert!(upsert.overwrite);
    assert_eq!(upsert.value, "bar".to_string());

    engine.step(Event::Upsert { event: UpsertEvent::Accepted });

    assert_eq!(
        engine.into_outcomes(),
        vec![Outcome::Success { name: "foo".to_string() }]
    );
}

#[test]
fn rejected_upsert_records_a_failure_and_continues() {
    let first = Parameter::new("alpha", "one", "first", false);
    let second = Parameter::new("beta", "two", "second", false);
    let mut engine = SyncEngine::new(vec![first, second]);

    engine.step(Event::Fetch { event: FetchEvent::NotFound });
    engine.step(Event::Upsert {
        event: UpsertEvent::Rejected { message: "access denied".to_string() },
    });

    let fetch = expect_fetch(engine.next_action());
    assert_eq!(fetch.name, "beta".to_string());

    engine.step(Event::Fetch { event: found("two") });

    assert_eq!(
        engine.into_outcomes(),
        vec![
            Outcome::Failure {
                name: "alpha".to_string(),
                error: StoreError::WriteRejected { message: "access denied".to_string() },
            },
            Outcome::Success { name: "beta".to_string() },
        ]
    );
}

#[test]
fn response_without_parameter_fails_the_entry() {
    let entry = Parameter::new("alpha", "one", "first", false);
    let mut engine = SyncEngine::new(vec![entry]);

    engine.step(Event::Fetch {
        event: FetchEvent::Response(FetchResponse { parameter: None }),
    });

    assert_eq!(
        engine.into_outcomes(),
        vec![Outcome::Failure {
            name: "alpha".to_string(),
            error: StoreError::MissingResponseField { field: ResponseField::Parameter },
        }]
    );
}

#[test]
fn response_without_value_fails_the_entry() {
    let entry = Parameter::new("alpha", "one", "first", false);
    let mut engine = SyncEngine::new(vec![entry]);

    engine.step(Event::Fetch {
        event: FetchEvent::Response(FetchResponse {
            parameter: Some(FetchedParameter { value: None }),
        }),
    });

    assert_eq!(
        engine.into_outcomes(),
        vec![Outcome::Failure {
            name: "alpha".to_string(),
            error: StoreError::MissingResponseField { field: ResponseField::Value },
        }]
    );
}

#[test]
fn empty_batch_finishes_at_once() {
    let engine = SyncEngine::new(Vec::new());

    assert!(engine.is_done());
    assert!(matches!(engine.next_action(), Action::Finish));
    assert_eq!(engine.into_outcomes(), Vec::new());
}

#[test]
fn duplicate_names_are_processed_independently_in_order() {
    let first = Parameter::new("same", "one", "first", false);
    let second = Parameter::new("same", "two", "second", false);
    let mut engine = SyncEngine::new(vec![first, second]);

    engine.step(Event::Fetch { event: FetchEvent::NotFound });
    let upsert = expect_upsert(engine.next_action());
    assert_eq!(upsert.value, "one".to_string());
    engine.step(Event::Upsert { event: UpsertEvent::Accepted });

    engine.step(Event::Fetch { event: found("one") });
    let upsert = expect_upsert(engine.next_action());
    assert_eq!(upsert.value, "two".to_string());
    engine.step(Event::Upsert { event: UpsertEvent::Accepted });

    assert_eq!(
        engine.into_outcomes(),
        vec![
            Outcome::Success { name: "same".to_string() },
            Outcome::Success { name: "same".to_string() },
        ]
    );
}

#[test]
fn decide_matches_the_three_outcomes() {
    let entry = Parameter::new("alpha", "one", "first", false);

    assert_eq!(entry.decide(&FetchEvent::NotFound), Decision::NeedsWrite);
    assert_eq!(entry.decide(&found("one")), Decision::UpToDate);
    assert_eq!(entry.decide(&found("two")), Decision::NeedsWrite);
    assert_eq!(
        entry.decide(&FetchEvent::Transport { message: "timeout".to_string() }),
        Decision::FetchFailed {
            error: StoreError::Transport { message: "timeout".to_string() },
        }
    );
}

#[test]
fn needs_updating_compares_exactly() {
    let entry = Parameter::new("alpha", "one", "first", false);

    assert_eq!(entry.needs_updating(&FetchEvent::NotFound), Ok(true));
    assert_eq!(entry.needs_updating(&found("one")), Ok(false));
    assert_eq!(entry.needs_updating(&found("ONE")), Ok(true));
}

#[test]
fn outcome_name_returns_the_entry_name() {
    let success = Outcome::Success { name: "alpha".to_string() };
    let failure = Outcome::Failure {
        name: "beta".to_string(),
        error: StoreError::Transport { message: "no route".to_string() },
    };

    assert_eq!(success.name(), &"alpha".to_string());
    assert_eq!(failure.name(), &"beta".to_string());
}

#[test]
fn store_error_messages_name_the_fault() {
    let transport = StoreError::Transport { message: "no route".to_string() };
    let rejected = StoreError::WriteRejected { message: "denied".to_string() };
    let missing = StoreError::MissingResponseField { field: ResponseField::Value };

    assert_eq!(transport.message(), "no route".to_string());
    assert_eq!(rejected.message(), "denied".to_string());
    assert_eq!(
        missing.message(),
        "fetch response parameter held no value".to_string()
    );
}

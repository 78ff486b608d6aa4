use c2c_proxy::failure::ProxyError;
use c2c_proxy::invocation::{begin, step, Action, Event, Invocation};
use c2c_proxy::proxy::{accepted_encodings, upstream_request};
use c2c_proxy::status::HttpStatus;
use serde_json::Value;

fn payload() -> Value {
    Value::Array(vec![Value::Bool(true), Value::String(String::from("BUY"))])
}

fn status(code: u16) -> HttpStatus {
    HttpStatus::from_code(code).unwrap()
}

fn all_events() -> Vec<Event> {
    vec![
        Event::ClientBuilt,
        Event::ClientFailed { cause: String::from("a") },
        Event::Responded { status: status(200) },
        Event::SendFailed { cause: String::from("b") },
        Event::BodyRead { text: String::from("{}") },
        Event::ReadFailed { cause: String::from("c") },
    ]
}

#[test]
fn begins_by_building_the_client() {
    let (state, action) = begin(payload());
    assert_eq!(state, Invocation::Building { payload: payload() });
    assert_eq!(action, Action::BuildClient { encodings: accepted_encodings() });
}

#[test]
fn a_full_run_returns_the_document() {
    let (state, _) = begin(payload());
    let (state, action) = step(state, Event::ClientBuilt).unwrap();
    assert_eq!(state, Invocation::Sending);
    assert_eq!(action, Action::Send { request: upstream_request(payload()) });
    let (state, action) = step(state, Event::Responded { status: status(200) }).unwrap();
    assert_eq!(state, Invocation::Reading { status: status(200) });
    assert_eq!(action, Action::ReadBody);
    let (state, action) =
        step(state, Event::BodyRead { text: String::from("[true,\"BUY\"]") }).unwrap();
    assert_eq!(state, Invocation::Done);
    assert_eq!(action, Action::Return { result: Ok(payload()) });
}

#[test]
fn client_failure_ends_the_run() {
    let (state, _) = begin(payload());
    let (state, action) =
        step(state, Event::ClientFailed { cause: String::from("no backend") }).unwrap();
    assert_eq!(state, Invocation::Done);
    assert_eq!(
        action,
        Action::Return {
            result: Err(ProxyError::ClientBuild { cause: String::from("no backend") })
        }
    );
}

#[test]
fn send_failure_ends_the_run_without_reading() {
    let (state, action) = step(
        Invocation::Sending,
        Event::SendFailed { cause: String::from("connection refused") },
    )
    .unwrap();
    assert_eq!(state, Invocation::Done);
    assert_ne!(action, Action::ReadBody);
    assert_eq!(
        action,
        Action::Return {
            result: Err(ProxyError::Network { cause: String::from("connection refused") })
        }
    );
}

#[test]
fn read_failure_ends_the_run() {
    let (state, action) = step(
        Invocation::Reading { status: status(200) },
        Event::ReadFailed { cause: String::from("invalid utf-8") },
    )
    .unwrap();
    assert_eq!(state, Invocation::Done);
    assert_eq!(
        action,
        Action::Return { result: Err(ProxyError::Read { cause: String::from("invalid utf-8") }) }
    );
}

#[test]
fn refused_status_is_reported_after_the_body_was_read() {
    let (state, action) =
        step(Invocation::Sending, Event::Responded { status: status(429) }).unwrap();
    assert_eq!(state, Invocation::Reading { status: status(429) });
    assert_eq!(action, Action::ReadBody);
    let (state, action) =
        step(state, Event::BodyRead { text: String::from("rate limited") }).unwrap();
    assert_eq!(state, Invocation::Done);
    match action {
        Action::Return { result: Err(error) } => {
            assert_eq!(error.message(), "API Error (429 Too Many Requests): rate limited");
        }
        other => panic!("unexpected action {:?}", other),
    }
}

#[test]
fn body_that_is_no_document_ends_in_a_parse_failure() {
    let (_, action) = step(
        Invocation::Reading { status: status(200) },
        Event::BodyRead { text: String::from("not json") },
    )
    .unwrap();
    assert_eq!(
        action,
        Action::Return {
            result: Err(ProxyError::Parse {
                cause: String::from("expected ident at line 1 column 2"),
                body: String::from("not json"),
            })
        }
    );
}

#[test]
fn events_that_do_not_answer_are_refused() {
    for (index, event) in all_events().into_iter().enumerate() {
        let next = step(Invocation::Building { payload: payload() }, event);
        assert_eq!(next.is_some(), index == 0 || index == 1);
    }
    for (index, event) in all_events().into_iter().enumerate() {
        let next = step(Invocation::Sending, event);
        assert_eq!(next.is_some(), index == 2 || index == 3);
    }
    for (index, event) in all_events().into_iter().enumerate() {
        let next = step(Invocation::Reading { status: status(200) }, event);
        assert_eq!(next.is_some(), index == 4 || index == 5);
    }
    for event in all_events() {
        assert_eq!(step(Invocation::Done, event), None);
    }
}

#[test]
fn the_request_is_sent_once_at_most() {
    let runs: Vec<Vec<Event>> = vec![
        all_events(),
        vec![
            Event::ClientBuilt,
            Event::Responded { status: status(200) },
            Event::BodyRead { text: String::from("{}") },
            Event::ClientBuilt,
        ],
        vec![Event::ClientBuilt, Event::ClientBuilt],
        vec![Event::ClientBuilt, Event::SendFailed { cause: String::from("x") }],
    ];
    for run in runs {
        let (mut state, _) = begin(payload());
        let mut sent = 0;
        for event in run {
            match step(state, event) {
                Some((after, action)) => {
                    if matches!(action, Action::Send { .. }) {
                        sent += 1;
                    }
                    state = after;
                }
                None => break,
            }
        }
        assert!(sent <= 1);
    }
}

#[test]
fn nothing_follows_the_third_step() {
    let (state, _) = begin(payload());
    let (state, _) = step(state, Event::ClientBuilt).unwrap();
    let (state, _) = step(state, Event::Responded { status: status(500) }).unwrap();
    let (state, action) = step(state, Event::BodyRead { text: String::new() }).unwrap();
    assert!(matches!(action, Action::Return { result: Err(ProxyError::Upstream { .. }) }));
    assert_eq!(state, Invocation::Done);
    assert_eq!(step(state, Event::ClientBuilt), None);
}

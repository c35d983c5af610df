//! The transitions of an exchange, one by one.

use images_microservice::error::{other, storage, ErrorKind, TransferError};
use images_microservice::handler::{begin_download, begin_upload, microservice_handler};
use images_microservice::response::{
    index_response, response_with_code, Body, Response, StatusCode, INDEX,
};
use images_microservice::router::Method;
use images_microservice::transfer::{step, Action, Event, Outcome, State, OUT_OF_ORDER};

fn name() -> String {
    "abcdefghij0123456789".to_string()
}

fn out_of_order() -> (State, Action) {
    (
        State::Closed(Outcome::Failed),
        Action::Fail(TransferError {
            kind: ErrorKind::Other,
            message: "event out of order".to_string(),
        }),
    )
}

fn all_events() -> Vec<Event> {
    vec![
        Event::Opened,
        Event::OpenFailed("open".to_string()),
        Event::Created,
        Event::CreateFailed("create".to_string()),
        Event::Chunk(vec![1, 2, 3]),
        Event::EndOfBody,
        Event::BodyFailed("body".to_string()),
        Event::Written,
        Event::WriteFailed("write".to_string()),
    ]
}

#[test]
fn status_codes_on_the_wire() {
    assert_eq!(StatusCode::Success.as_u16(), 200);
    assert_eq!(StatusCode::NotFound.as_u16(), 404);
}

#[test]
fn response_with_code_has_no_body() {
    assert_eq!(
        response_with_code(StatusCode::NotFound),
        Response { status: StatusCode::NotFound, body: Body::Empty }
    );
    assert_eq!(
        response_with_code(StatusCode::Success),
        Response { status: StatusCode::Success, body: Body::Empty }
    );
}

#[test]
fn index_response_is_the_fixed_text() {
    assert_eq!(INDEX, "Images Microservice");
    assert_eq!(
        index_response(),
        Response {
            status: StatusCode::Success,
            body: Body::Text("Images Microservice".to_string())
        }
    );
}

#[test]
fn other_keeps_the_message() {
    assert_eq!(
        other("stream closed".to_string()),
        TransferError { kind: ErrorKind::Other, message: "stream closed".to_string() }
    );
    assert_eq!(
        other(String::new()),
        TransferError { kind: ErrorKind::Other, message: String::new() }
    );
}

#[test]
fn storage_keeps_the_message() {
    assert_eq!(
        storage("disk full".to_string()),
        TransferError { kind: ErrorKind::Storage, message: "disk full".to_string() }
    );
}

#[test]
fn out_of_order_message() {
    assert_eq!(OUT_OF_ORDER, "event out of order");
}

#[test]
fn handler_answers_the_index_at_once() {
    assert_eq!(
        microservice_handler(Method::Get, "/"),
        (
            State::Closed(Outcome::Success),
            Action::Respond(Response {
                status: StatusCode::Success,
                body: Body::Text("Images Microservice".to_string())
            })
        )
    );
}

#[test]
fn handler_answers_not_found_at_once() {
    let not_found = (
        State::Closed(Outcome::Success),
        Action::Respond(Response { status: StatusCode::NotFound, body: Body::Empty }),
    );
    assert_eq!(microservice_handler(Method::Get, "/nonexistent"), not_found);
    assert_eq!(microservice_handler(Method::Get, "/download/short"), not_found);
    assert_eq!(microservice_handler(Method::Delete, "/"), not_found);
    assert_eq!(microservice_handler(Method::Get, "/download/"), not_found);
}

#[test]
fn handler_starts_a_download_by_opening_the_file() {
    assert_eq!(
        microservice_handler(Method::Get, "/download/abcdefghij0123456789"),
        (State::Opening { name: name() }, Action::Open(name()))
    );
}

#[test]
fn handler_starts_an_upload_by_creating_a_file() {
    let (state, action) = microservice_handler(Method::Post, "/upload");
    match (state, action) {
        (State::Creating { name }, Action::Create(created)) => {
            assert_eq!(name, created);
            assert_eq!(name.len(), 20);
            assert!(name.chars().all(|c| c.is_ascii_alphanumeric()));
        }
        other => panic!("an upload began with {:?}", other),
    }
}

#[test]
fn begin_download_opens_the_named_file() {
    assert_eq!(begin_download(name()), (State::Opening { name: name() }, Action::Open(name())));
}

#[test]
fn begin_upload_creates_the_named_file() {
    assert_eq!(begin_upload(name()), (State::Creating { name: name() }, Action::Create(name())));
}

#[test]
fn opening_then_opened_responds_with_the_file() {
    assert_eq!(
        step(State::Opening { name: name() }, Event::Opened),
        (
            State::Closed(Outcome::Success),
            Action::Respond(Response { status: StatusCode::Success, body: Body::File(name()) })
        )
    );
}

#[test]
fn opening_then_open_failed_fails() {
    assert_eq!(
        step(State::Opening { name: name() }, Event::OpenFailed("gone".to_string())),
        (
            State::Closed(Outcome::Failed),
            Action::Fail(TransferError { kind: ErrorKind::Storage, message: "gone".to_string() })
        )
    );
}

#[test]
fn creating_then_created_reads_the_body() {
    assert_eq!(
        step(State::Creating { name: name() }, Event::Created),
        (State::ReadingBody { name: name() }, Action::ReadBody)
    );
}

#[test]
fn creating_then_create_failed_fails() {
    assert_eq!(
        step(State::Creating { name: name() }, Event::CreateFailed("denied".to_string())),
        (
            State::Closed(Outcome::Failed),
            Action::Fail(TransferError { kind: ErrorKind::Storage, message: "denied".to_string() })
        )
    );
}

#[test]
fn reading_then_chunk_writes_that_chunk() {
    assert_eq!(
        step(State::ReadingBody { name: name() }, Event::Chunk(vec![9, 8, 7])),
        (State::WritingChunk { name: name() }, Action::Write(vec![9, 8, 7]))
    );
    assert_eq!(
        step(State::ReadingBody { name: name() }, Event::Chunk(Vec::new())),
        (State::WritingChunk { name: name() }, Action::Write(Vec::new()))
    );
}

#[test]
fn reading_then_end_of_body_responds_with_the_name() {
    assert_eq!(
        step(State::ReadingBody { name: name() }, Event::EndOfBody),
        (
            State::Closed(Outcome::Success),
            Action::Respond(Response { status: StatusCode::Success, body: Body::Text(name()) })
        )
    );
}

#[test]
fn reading_then_body_failed_fails() {
    assert_eq!(
        step(State::ReadingBody { name: name() }, Event::BodyFailed("reset".to_string())),
        (
            State::Closed(Outcome::Failed),
            Action::Fail(TransferError { kind: ErrorKind::Other, message: "reset".to_string() })
        )
    );
}

#[test]
fn writing_then_written_reads_the_next_chunk() {
    assert_eq!(
        step(State::WritingChunk { name: name() }, Event::Written),
        (State::ReadingBody { name: name() }, Action::ReadBody)
    );
}

#[test]
fn writing_then_write_failed_fails() {
    assert_eq!(
        step(State::WritingChunk { name: name() }, Event::WriteFailed("full".to_string())),
        (
            State::Closed(Outcome::Failed),
            Action::Fail(TransferError { kind: ErrorKind::Storage, message: "full".to_string() })
        )
    );
}

#[test]
fn closed_exchange_stays_closed() {
    for outcome in [Outcome::Success, Outcome::Failed] {
        for event in all_events() {
            assert_eq!(step(State::Closed(outcome), event), (State::Closed(outcome), Action::Done));
        }
    }
}

#[test]
fn events_out_of_order_end_the_exchange() {
    let awaited = |state: &State, event: &Event| match state {
        State::Opening { .. } => matches!(event, Event::Opened | Event::OpenFailed(_)),
        State::Creating { .. } => matches!(event, Event::Created | Event::CreateFailed(_)),
        State::ReadingBody { .. } => {
            matches!(event, Event::Chunk(_) | Event::EndOfBody | Event::BodyFailed(_))
        }
        State::WritingChunk { .. } => matches!(event, Event::Written | Event::WriteFailed(_)),
        State::Closed(_) => true,
    };
    let states = vec![
        State::Opening { name: name() },
        State::Creating { name: name() },
        State::ReadingBody { name: name() },
        State::WritingChunk { name: name() },
    ];
    let mut checked = 0;
    for state in states {
        for event in all_events() {
            if !awaited(&state, &event) {
                assert_eq!(step(state.clone(), event), out_of_order());
                checked += 1;
            }
        }
    }
    assert_eq!(checked, 7 + 7 + 6 + 7);
}

#[test]
fn a_chunk_that_comes_during_a_write_is_not_dropped_in_silence() {
    let (state, action) = step(State::WritingChunk { name: name() }, Event::Chunk(vec![1]));
    assert_eq!(state, State::Closed(Outcome::Failed));
    assert!(matches!(action, Action::Fail(_)));
}

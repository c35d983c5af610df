//! One exchange as a state machine. The machine moves bytes between a request
//! body and a file without holding more than one chunk: each step takes what
//! just happened and names the one thing to do next.
//!
//! An exchange is idle until its request is routed, and has no state before.
//! Routing puts it into [`State::Opening`] (a download) or into
//! [`State::Creating`] (an upload), or closes it at once. An upload then goes
//! back and forth between [`State::ReadingBody`] and [`State::WritingChunk`],
//! once for every chunk of the body, and every exchange ends in
//! [`State::Closed`], in success or in failure. Nothing is tried twice.
//!
//! Each exchange has a state of its own and shares none with any other.

use crate::error::{other, storage, ErrorKind, TransferError, TransferErrorView};
use crate::response::{Body, BodyView, Response, ResponseView, StatusCode};
use vstd::prelude::*;
use vstd::string::*;

verus! {

/// The message of the failure that ends an exchange whose events arrive in an
/// order that the machine never asks for.
pub const OUT_OF_ORDER: &'static str = "event out of order";

/// How an exchange ended.
#[derive(Clone, Copy, Debug, PartialEq, Eq, Structural)]
pub enum Outcome {
    /// A response went out.
    Success,
    /// An error went to the transport.
    Failed,
}

/// Where an exchange stands.
#[derive(Clone, Debug, PartialEq, Eq)]
pub enum State {
    /// A download waits for its file to be opened.
    Opening { name: String },
    /// An upload waits for its file to be created.
    Creating { name: String },
    /// An upload waits for the next chunk of the request body.
    ReadingBody { name: String },
    /// An upload waits until the chunk it handed out is on disk.
    WritingChunk { name: String },
    /// The exchange is over.
    Closed(Outcome),
}

/// What a [`State`] is in contracts.
pub enum StateView {
    Opening { name: Seq<char> },
    Creating { name: Seq<char> },
    ReadingBody { name: Seq<char> },
    WritingChunk { name: Seq<char> },
    Closed(Outcome),
}

impl View for State {
    type V = StateView;

    open spec fn view(&self) -> StateView {
        match self {
            State::Opening { name } => StateView::Opening { name: name@ },
            State::Creating { name } => StateView::Creating { name: name@ },
            State::ReadingBody { name } => StateView::ReadingBody { name: name@ },
            State::WritingChunk { name } => StateView::WritingChunk { name: name@ },
            State::Closed(outcome) => StateView::Closed(*outcome),
        }
    }
}

/// What happened outside since the last step.
#[derive(Clone, Debug, PartialEq, Eq)]
pub enum Event {
    /// The file is open for reading.
    Opened,
    /// The file could not be opened.
    OpenFailed(String),
    /// The file exists, is empty and is open for writing.
    Created,
    /// The file could not be created.
    CreateFailed(String),
    /// The request body gave its next chunk.
    Chunk(Vec<u8>),
    /// The request body has no more chunks.
    EndOfBody,
    /// The request body broke off.
    BodyFailed(String),
    /// The chunk handed out last is on disk, after all chunks before it.
    Written,
    /// The chunk handed out last could not be written.
    WriteFailed(String),
}

/// What an [`Event`] is in contracts.
pub enum EventView {
    Opened,
    OpenFailed(Seq<char>),
    Created,
    CreateFailed(Seq<char>),
    Chunk(Seq<u8>),
    EndOfBody,
    BodyFailed(Seq<char>),
    Written,
    WriteFailed(Seq<char>),
}

impl View for Event {
    type V = EventView;

    open spec fn view(&self) -> EventView {
        match self {
            Event::Opened => EventView::Opened,
            Event::OpenFailed(message) => EventView::OpenFailed(message@),
            Event::Created => EventView::Created,
            Event::CreateFailed(message) => EventView::CreateFailed(message@),
            Event::Chunk(bytes) => EventView::Chunk(bytes@),
            Event::EndOfBody => EventView::EndOfBody,
            Event::BodyFailed(message) => EventView::BodyFailed(message@),
            Event::Written => EventView::Written,
            Event::WriteFailed(message) => EventView::WriteFailed(message@),
        }
    }
}

/// The one thing to do next.
#[derive(Clone, Debug, PartialEq, Eq)]
pub enum Action {
    /// Send this response. The exchange is over.
    Respond(Response),
    /// Hand this error to the transport. The exchange is over.
    Fail(TransferError),
    /// Open the stored file of this name for reading, then report
    /// [`Event::Opened`] or [`Event::OpenFailed`].
    Open(String),
    /// Create the file of this name, empty, replacing one that is there, then
    /// report [`Event::Created`] or [`Event::CreateFailed`].
    Create(String),
    /// Take the next chunk from the request body, then report
    /// [`Event::Chunk`], [`Event::EndOfBody`] or [`Event::BodyFailed`].
    ReadBody,
    /// Append these bytes to the file of this upload, then report
    /// [`Event::Written`] or [`Event::WriteFailed`].
    Write(Vec<u8>),
    /// Nothing: the exchange was over before the event came.
    Done,
}

/// What an [`Action`] is in contracts.
pub enum ActionView {
    Respond(ResponseView),
    Fail(TransferErrorView),
    Open(Seq<char>),
    Create(Seq<char>),
    ReadBody,
    Write(Seq<u8>),
    Done,
}

impl View for Action {
    type V = ActionView;

    open spec fn view(&self) -> ActionView {
        match self {
            Action::Respond(response) => ActionView::Respond(response@),
            Action::Fail(error) => ActionView::Fail(error@),
            Action::Open(name) => ActionView::Open(name@),
            Action::Create(name) => ActionView::Create(name@),
            Action::ReadBody => ActionView::ReadBody,
            Action::Write(bytes) => ActionView::Write(bytes@),
            Action::Done => ActionView::Done,
        }
    }
}

/// The end of an exchange whose storage failed with this message.
pub open spec fn storage_failure(message: Seq<char>) -> (StateView, ActionView) {
    (
        StateView::Closed(Outcome::Failed),
        ActionView::Fail(TransferErrorView { kind: ErrorKind::Storage, message }),
    )
}

/// The end of an exchange that failed outside the storage, with this message.
pub open spec fn other_failure(message: Seq<char>) -> (StateView, ActionView) {
    (
        StateView::Closed(Outcome::Failed),
        ActionView::Fail(TransferErrorView { kind: ErrorKind::Other, message }),
    )
}

/// The end of an exchange that answers with this body and status 200.
pub open spec fn success(body: BodyView) -> (StateView, ActionView) {
    (
        StateView::Closed(Outcome::Success),
        ActionView::Respond(ResponseView { status: StatusCode::Success, body }),
    )
}

/// Whether `event` is one of the reports that an exchange in `state` waits
/// for. A closed exchange waits for none.
pub open spec fn awaits(state: StateView, event: EventView) -> bool {
    match state {
        StateView::Opening { .. } => event is Opened || event is OpenFailed,
        StateView::Creating { .. } => event is Created || event is CreateFailed,
        StateView::ReadingBody { .. } => event is Chunk || event is EndOfBody || event
            is BodyFailed,
        StateView::WritingChunk { .. } => event is Written || event is WriteFailed,
        StateView::Closed(_) => false,
    }
}

/// The transition table of an exchange.
///
/// An event that the state does not wait for ends the exchange in failure, so
/// that a chunk that comes while another is still being written is never
/// dropped in silence. A closed exchange stays as it is.
pub open spec fn step_spec(state: StateView, event: EventView) -> (StateView, ActionView) {
    match state {
        StateView::Opening { name } => match event {
            EventView::Opened => success(BodyView::File(name)),
            EventView::OpenFailed(message) => storage_failure(message),
            _ => other_failure(OUT_OF_ORDER@),
        },
        StateView::Creating { name } => match event {
            EventView::Created => (StateView::ReadingBody { name }, ActionView::ReadBody),
            EventView::CreateFailed(message) => storage_failure(message),
            _ => other_failure(OUT_OF_ORDER@),
        },
        StateView::ReadingBody { name } => match event {
            EventView::Chunk(bytes) => (StateView::WritingChunk { name }, ActionView::Write(bytes)),
            EventView::EndOfBody => success(BodyView::Text(name)),
            EventView::BodyFailed(message) => other_failure(message),
            _ => other_failure(OUT_OF_ORDER@),
        },
        StateView::WritingChunk { name } => match event {
            EventView::Written => (StateView::ReadingBody { name }, ActionView::ReadBody),
            EventView::WriteFailed(message) => storage_failure(message),
            _ => other_failure(OUT_OF_ORDER@),
        },
        StateView::Closed(outcome) => (StateView::Closed(outcome), ActionView::Done),
    }
}

/// Ends an exchange on an event that its state does not wait for.
fn out_of_order() -> (r: (State, Action))
    ensures
        (r.0@, r.1@) == other_failure(OUT_OF_ORDER@),
{
    (State::Closed(Outcome::Failed), Action::Fail(other(String::from_str(OUT_OF_ORDER))))
}

/// Ends an exchange whose storage failed.
fn storage_failed(message: String) -> (r: (State, Action))
    ensures
        (r.0@, r.1@) == storage_failure(message@),
{
    (State::Closed(Outcome::Failed), Action::Fail(storage(message)))
}

/// Ends an exchange whose request body broke off.
fn body_failed(message: String) -> (r: (State, Action))
    ensures
        (r.0@, r.1@) == other_failure(message@),
{
    (State::Closed(Outcome::Failed), Action::Fail(other(message)))
}

/// Ends an exchange with a response of status 200.
fn succeed(body: Body) -> (r: (State, Action))
    ensures
        (r.0@, r.1@) == success(body@),
{
    (
        State::Closed(Outcome::Success),
        Action::Respond(Response { status: StatusCode::Success, body }),
    )
}

/// Takes an exchange one step further: from where it stands and what just
/// happened to where it stands now and what to do next.
pub fn step(state: State, event: Event) -> (r: (State, Action))
    ensures
        (r.0@, r.1@) == step_spec(state@, event@),
{
    match state {
        State::Opening { name } => match event {
            Event::Opened => succeed(Body::File(name)),
            Event::OpenFailed(message) => storage_failed(message),
            _ => out_of_order(),
        },
        State::Creating { name } => match event {
            Event::Created => (State::ReadingBody { name }, Action::ReadBody),
            Event::CreateFailed(message) => storage_failed(message),
            _ => out_of_order(),
        },
        State::ReadingBody { name } => match event {
            Event::Chunk(bytes) => (State::WritingChunk { name }, Action::Write(bytes)),
            Event::EndOfBody => succeed(Body::Text(name)),
            Event::BodyFailed(message) => body_failed(message),
            _ => out_of_order(),
        },
        State::WritingChunk { name } => match event {
            Event::Written => (State::ReadingBody { name }, Action::ReadBody),
            Event::WriteFailed(message) => storage_failed(message),
            _ => out_of_order(),
        },
        State::Closed(outcome) => (State::Closed(outcome), Action::Done),
    }
}

/// A download whose file opens answers with that file as its body and status
/// 200; one whose file does not open ends in failure and sends no response.
pub proof fn lemma_download_outcome(name: Seq<char>, message: Seq<char>)
    ensures
        step_spec(StateView::Opening { name }, EventView::Opened) == success(BodyView::File(name)),
        step_spec(StateView::Opening { name }, EventView::OpenFailed(message)) == storage_failure(
            message,
        ),
        !(step_spec(StateView::Opening { name }, EventView::OpenFailed(message)).1 is Respond),
{
}

/// The next chunk is asked for only when the file has just been created or
/// the chunk before is on disk, and the bytes handed out for writing are
/// always the chunk that just came in.
pub proof fn lemma_one_chunk_at_a_time(state: StateView, event: EventView)
    ensures
        step_spec(state, event).1 is ReadBody ==> (state is Creating && event is Created) || (state
            is WritingChunk && event is Written),
        step_spec(state, event).1 matches ActionView::Write(bytes) ==> state is ReadingBody
            && event == EventView::Chunk(bytes),
{
}

/// A failure reported by the storage or by the request body ends the exchange
/// at once: the state is closed as failed and the error goes to the
/// transport with the message that was reported.
pub proof fn lemma_failure_ends_exchange(state: StateView, message: Seq<char>)
    ensures
        state is Opening ==> step_spec(state, EventView::OpenFailed(message)) == storage_failure(
            message,
        ),
        state is Creating ==> step_spec(state, EventView::CreateFailed(message))
            == storage_failure(message),
        state is WritingChunk ==> step_spec(state, EventView::WriteFailed(message))
            == storage_failure(message),
        state is ReadingBody ==> step_spec(state, EventView::BodyFailed(message)) == other_failure(
            message,
        ),
{
}

/// No step names a file: which file an exchange opens or creates is settled
/// when the request is routed, and never after.
pub proof fn lemma_steps_name_no_file(state: StateView, event: EventView)
    ensures
        !(step_spec(state, event).1 is Open),
        !(step_spec(state, event).1 is Create),
{
}

/// A closed exchange stays closed with the outcome it has, whatever comes,
/// and asks for nothing more.
pub proof fn lemma_closed_is_final(outcome: Outcome, event: EventView)
    ensures
        step_spec(StateView::Closed(outcome), event) == (
            StateView::Closed(outcome),
            ActionView::Done,
        ),
{
}

/// An event that the state does not wait for ends the exchange in failure:
/// no response goes out and nothing more is read or written.
pub proof fn lemma_out_of_order_fails(state: StateView, event: EventView)
    requires
        !(state is Closed),
        !awaits(state, event),
    ensures
        step_spec(state, event) == other_failure(OUT_OF_ORDER@),
{
}

} // verus!

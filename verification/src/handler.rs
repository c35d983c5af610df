//! The entry point of an exchange: a request is routed, and the first step of
//! its operation is taken.

use crate::codec::{generate, is_generated, is_identifier};
use crate::response::{
    index_response, response_with_code, BodyView, ResponseView, StatusCode, INDEX,
};
use crate::router::{
    lemma_identifier_is_routed, lemma_malformed_download_not_found, route, route_of, Method,
    Route, RouteView, DOWNLOAD_PREFIX, INDEX_PATH,
};
use crate::transfer::{success, Action, ActionView, Outcome, State, StateView};
use vstd::prelude::*;
use vstd::string::*;

verus! {

/// The answer to a request for the index page.
pub open spec fn index_page() -> (StateView, ActionView) {
    success(BodyView::Text(INDEX@))
}

/// The answer to a request that asks for nothing this service offers: status
/// 404 and no body.
pub open spec fn not_found() -> (StateView, ActionView) {
    (
        StateView::Closed(Outcome::Success),
        ActionView::Respond(ResponseView { status: StatusCode::NotFound, body: BodyView::Empty }),
    )
}

/// The first step of the download of the stored file `name`.
pub open spec fn download_start(name: Seq<char>) -> (StateView, ActionView) {
    (StateView::Opening { name }, ActionView::Open(name))
}

/// The first step of an upload into the file `name`.
pub open spec fn upload_start(name: Seq<char>) -> (StateView, ActionView) {
    (StateView::Creating { name }, ActionView::Create(name))
}

/// Whether a step is the first step of an upload into a file whose name is a
/// generated identifier.
pub open spec fn starts_upload(state: StateView, action: ActionView) -> bool {
    match action {
        ActionView::Create(name) => is_generated(name) && (state, action) == upload_start(name),
        _ => false,
    }
}

/// Whether a step is what the handler may make of a request. The route
/// settles it, but for the name of the file of an upload, which may be any
/// generated identifier.
pub open spec fn handles(
    method: Method,
    path: Seq<char>,
    state: StateView,
    action: ActionView,
) -> bool {
    match route_of(method, path) {
        RouteView::Index => (state, action) == index_page(),
        RouteView::Download(name) => (state, action) == download_start(name),
        RouteView::Upload => starts_upload(state, action),
        RouteView::NotFound => (state, action) == not_found(),
    }
}

/// Starts the download of the stored file `name`: the file is to be opened.
pub fn begin_download(name: String) -> (r: (State, Action))
    ensures
        (r.0@, r.1@) == download_start(name@),
{
    let opened = name.clone();
    (State::Opening { name }, Action::Open(opened))
}

/// Starts an upload into the file `name`: the file is to be created. The
/// response at the end of the upload carries the same name.
pub fn begin_upload(name: String) -> (r: (State, Action))
    ensures
        (r.0@, r.1@) == upload_start(name@),
{
    let created = name.clone();
    (State::Creating { name }, Action::Create(created))
}

/// Handles a request up to the first thing that has to happen outside.
///
/// The index page and every request that matches no route are answered at
/// once. A download starts with the opening of the file that its path names.
/// An upload starts with the creation of a file under a newly generated
/// identifier, whatever identifier that is.
///
/// Nothing but the method and the path decides, so the index page is the
/// same for every GET of its path, and a path that the routing table does not
/// know is answered with 404 before any file is looked for. A file that is to
/// be opened or created always has an identifier for its name.
pub fn microservice_handler(method: Method, path: &str) -> (r: (State, Action))
    ensures
        handles(method, path@, r.0@, r.1@),
        r.1@ matches ActionView::Open(name) ==> is_identifier(name),
        r.1@ matches ActionView::Create(name) ==> is_generated(name),
{
    match route(method, path) {
        Route::Index => (State::Closed(Outcome::Success), Action::Respond(index_response())),
        Route::Download(name) => begin_download(name),
        Route::Upload => begin_upload(generate()),
        Route::NotFound => (
            State::Closed(Outcome::Success),
            Action::Respond(response_with_code(StatusCode::NotFound)),
        ),
    }
}

/// A GET of the index path is always answered with the index page: the fixed
/// text, with status 200. Nothing else of the request is looked at.
pub proof fn lemma_index_is_fixed(state: StateView, action: ActionView)
    requires
        handles(Method::Get, INDEX_PATH@, state, action),
    ensures
        (state, action) == index_page(),
{
}

/// A GET below the download prefix whose segment is not an identifier, be it
/// too short, too long or of other characters, is answered with 404 at once:
/// no file is opened for it.
pub proof fn lemma_malformed_download_is_refused(
    segment: Seq<char>,
    state: StateView,
    action: ActionView,
)
    requires
        !is_identifier(segment),
        handles(Method::Get, DOWNLOAD_PREFIX@ + segment, state, action),
    ensures
        (state, action) == not_found(),
        !(action is Open),
{
    lemma_malformed_download_not_found(segment);
}

/// A GET of the download prefix followed by an identifier starts with the
/// opening of the file of exactly that name.
pub proof fn lemma_download_opens_named_file(
    name: Seq<char>,
    state: StateView,
    action: ActionView,
)
    requires
        is_identifier(name),
        handles(Method::Get, DOWNLOAD_PREFIX@ + name, state, action),
    ensures
        (state, action) == download_start(name),
{
    lemma_identifier_is_routed(name);
}

} // verus!

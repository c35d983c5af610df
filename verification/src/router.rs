//! From a request's method and path to the one operation it asks for.

use crate::codec::{is_identifier, validate, ID_LEN};
use vstd::prelude::*;
use vstd::string::*;

verus! {

/// The path of the index page.
pub const INDEX_PATH: &'static str = "/";

/// The path that takes an upload.
pub const UPLOAD_PATH: &'static str = "/upload";

/// What stands before the identifier in the path of a download.
pub const DOWNLOAD_PREFIX: &'static str = "/download/";

/// The method of a request.
#[derive(Clone, Copy, Debug, PartialEq, Eq, Structural)]
pub enum Method {
    Get,
    Post,
    Put,
    Delete,
    Head,
    Options,
    Connect,
    Patch,
    Trace,
    /// Any method that has no variant of its own.
    Other,
}

/// The operation that a request asks for.
#[derive(Clone, Debug, PartialEq, Eq)]
pub enum Route {
    /// The index page.
    Index,
    /// The stored file of this name. The name is always an identifier.
    Download(String),
    /// A new file, made from the request body.
    Upload,
    /// Nothing that this service offers.
    NotFound,
}

/// What a [`Route`] is in contracts.
pub enum RouteView {
    Index,
    Download(Seq<char>),
    Upload,
    NotFound,
}

impl View for Route {
    type V = RouteView;

    open spec fn view(&self) -> RouteView {
        match self {
            Route::Index => RouteView::Index,
            Route::Download(name) => RouteView::Download(name@),
            Route::Upload => RouteView::Upload,
            Route::NotFound => RouteView::NotFound,
        }
    }
}

/// The identifier that a download path names: the path is [`DOWNLOAD_PREFIX`]
/// and then an identifier, with nothing before, between or after, so that it
/// is as long as the two together. Any other path names none.
pub open spec fn download_name(path: Seq<char>) -> Option<Seq<char>> {
    let prefix = DOWNLOAD_PREFIX@;
    let name = path.skip(prefix.len() as int);
    if path.len() == prefix.len() + ID_LEN && prefix.is_prefix_of(path) && is_identifier(name) {
        Some(name)
    } else {
        None
    }
}

/// The routing table.
pub open spec fn route_of(method: Method, path: Seq<char>) -> RouteView {
    match method {
        Method::Get => if path == INDEX_PATH@ {
            RouteView::Index
        } else {
            match download_name(path) {
                Some(name) => RouteView::Download(name),
                None => RouteView::NotFound,
            }
        },
        Method::Post => if path == UPLOAD_PATH@ {
            RouteView::Upload
        } else {
            RouteView::NotFound
        },
        _ => RouteView::NotFound,
    }
}

/// Whether two strings hold the same characters. The characters are compared
/// one by one only when the lengths agree.
fn same_text(a: &str, b: &str) -> (r: bool)
    ensures
        r == (a@ == b@),
{
    let n = a.unicode_len();
    if b.unicode_len() != n {
        return false;
    }
    let mut i: usize = 0;
    while i < n
        invariant
            i <= n,
            a@.len() == n,
            b@.len() == n,
            forall|j: int| 0 <= j < i ==> a@[j] == b@[j],
        decreases n - i,
    {
        if a.get_char(i) != b.get_char(i) {
            return false;
        }
        i += 1;
    }
    assert(a@ =~= b@);
    true
}

/// What follows `prefix` in `text`, if `text` begins with it.
fn strip_prefix<'a>(text: &'a str, prefix: &str) -> (r: Option<&'a str>)
    ensures
        match r {
            Some(rest) => prefix@.is_prefix_of(text@) && rest@ == text@.skip(prefix@.len() as int),
            None => !prefix@.is_prefix_of(text@),
        },
{
    let n = text.unicode_len();
    let k = prefix.unicode_len();
    if n < k {
        return None;
    }
    let mut i: usize = 0;
    while i < k
        invariant
            i <= k,
            k <= n,
            text@.len() == n,
            prefix@.len() == k,
            forall|j: int| 0 <= j < i ==> text@[j] == prefix@[j],
        decreases k - i,
    {
        if text.get_char(i) != prefix.get_char(i) {
            return None;
        }
        i += 1;
    }
    Some(text.substring_char(k, n))
}

/// Reads the identifier out of a download path.
pub fn download_segment(path: &str) -> (r: Option<String>)
    ensures
        match r {
            Some(name) => download_name(path@) == Some(name@),
            None => download_name(path@) is None,
        },
{
    match strip_prefix(path, DOWNLOAD_PREFIX) {
        Some(segment) => validate(segment),
        None => None,
    }
}

/// Maps a request to its operation. Only the method and the path are read;
/// the router keeps no state and touches no file.
pub fn route(method: Method, path: &str) -> (r: Route)
    ensures
        r@ == route_of(method, path@),
{
    match method {
        Method::Get => {
            if same_text(path, INDEX_PATH) {
                Route::Index
            } else {
                match download_segment(path) {
                    Some(name) => Route::Download(name),
                    None => Route::NotFound,
                }
            }
        },
        Method::Post => {
            if same_text(path, UPLOAD_PATH) {
                Route::Upload
            } else {
                Route::NotFound
            }
        },
        _ => Route::NotFound,
    }
}

/// The routing table read from its results: which requests lead where. The
/// index answers only a GET of its one path, an upload is only a POST of its
/// one path, and a download is only a GET of the prefix followed by an
/// identifier, which is then the name of the file.
pub proof fn lemma_route_table(method: Method, path: Seq<char>)
    ensures
        route_of(method, path) is Index <==> method == Method::Get && path == INDEX_PATH@,
        route_of(method, path) is Upload <==> method == Method::Post && path == UPLOAD_PATH@,
        forall|name: Seq<char>|
            route_of(method, path) == RouteView::Download(name) <==> method == Method::Get
                && is_identifier(name) && path == DOWNLOAD_PREFIX@ + name,
{
    reveal_strlit("/");
    reveal_strlit("/upload");
    reveal_strlit("/download/");
    let prefix = DOWNLOAD_PREFIX@;
    let rest = path.skip(prefix.len() as int);
    if prefix.is_prefix_of(path) {
        assert(path =~= prefix + rest);
    }
    assert forall|name: Seq<char>| path == prefix + name implies prefix.is_prefix_of(path) && rest
        == name by {
        assert(prefix =~= path.subrange(0, prefix.len() as int));
        assert(rest =~= name);
    }
}

/// A GET below the download prefix whose segment is not an identifier, be it
/// too short, too long or of other characters, finds nothing.
pub proof fn lemma_malformed_download_not_found(segment: Seq<char>)
    requires
        !is_identifier(segment),
    ensures
        route_of(Method::Get, DOWNLOAD_PREFIX@ + segment) == RouteView::NotFound,
{
    reveal_strlit("/");
    reveal_strlit("/download/");
    let path = DOWNLOAD_PREFIX@ + segment;
    assert(path.skip(DOWNLOAD_PREFIX@.len() as int) =~= segment);
}

/// A GET of the download prefix followed by an identifier leads to the file
/// of exactly that name.
pub proof fn lemma_identifier_is_routed(name: Seq<char>)
    requires
        is_identifier(name),
    ensures
        route_of(Method::Get, DOWNLOAD_PREFIX@ + name) == RouteView::Download(name),
{
    lemma_route_table(Method::Get, DOWNLOAD_PREFIX@ + name);
}

} // verus!

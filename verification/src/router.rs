//! Dispatch of a request to its handler by method and exact path.

use vstd::prelude::*;
use crate::method::Method;
use crate::text::str_equal;

verus! {

/// The handler that a request is dispatched to.
#[derive(Clone, Copy, Debug, PartialEq, Eq, Structural)]
pub enum Route {
    /// `POST /form`: the upload handler.
    Upload,
    /// `OPTIONS /`: the preflight handler.
    Preflight,
    /// `GET /worker-version`: the version handler.
    Version,
    /// Any other request: no handler, the platform answers by its default.
    NotFound,
}

/// The path of the upload route.
pub const UPLOAD_PATH: &'static str = "/form";

/// The path of the preflight route.
pub const PREFLIGHT_PATH: &'static str = "/";

/// The path of the version route.
pub const VERSION_PATH: &'static str = "/worker-version";

/// The route table: each of the three routes is taken by one method on one
/// exact path, and every other request finds no handler.
pub open spec fn route_of(method: Method, path: Seq<char>) -> Route {
    if method == Method::Post && path == "/form"@ {
        Route::Upload
    } else if method == Method::Options && path == "/"@ {
        Route::Preflight
    } else if method == Method::Get && path == "/worker-version"@ {
        Route::Version
    } else {
        Route::NotFound
    }
}

/// Finds the handler for a request.
pub fn route(method: Method, path: &str) -> (route: Route)
    ensures
        route == route_of(method, path@),
{
    match method {
        Method::Post => if str_equal(path, UPLOAD_PATH) {
            Route::Upload
        } else {
            Route::NotFound
        },
        Method::Options => if str_equal(path, PREFLIGHT_PATH) {
            Route::Preflight
        } else {
            Route::NotFound
        },
        Method::Get => if str_equal(path, VERSION_PATH) {
            Route::Version
        } else {
            Route::NotFound
        },
        _ => Route::NotFound,
    }
}

} // verus!

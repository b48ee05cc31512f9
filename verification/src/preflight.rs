//! The preflight handler: the answer to a browser that asks, before a
//! cross-origin request, what the service accepts.

use vstd::prelude::*;
use crate::cors::CorsPolicy;
use crate::cors::CorsPolicyView;
use crate::cors::policy_headers;
use crate::cors::service_headers;
use crate::cors::service_policy;
use crate::response::Response;
use crate::response::ResponseView;
use crate::response::empty_response;

verus! {

/// The request header that names the origin of the calling page.
pub const ORIGIN_HEADER: &'static str = "Origin";

/// The request header that names the method of the request to come.
pub const REQUEST_METHOD_HEADER: &'static str = "Access-Control-Request-Method";

/// The request header that names the headers of the request to come.
pub const REQUEST_HEADERS_HEADER: &'static str = "Access-Control-Request-Headers";

/// Whether a request negotiates cross-origin access: it does where it
/// carries all three preflight headers, whatever they hold.
pub open spec fn negotiates(
    origin: Option<Seq<char>>,
    request_method: Option<Seq<char>>,
    request_headers: Option<Seq<char>>,
) -> bool {
    origin is Some && request_method is Some && request_headers is Some
}

/// The answer to a request on the preflight route: an empty response, which
/// carries the policy's header lines where the request negotiates and no
/// header at all where it does not.
pub open spec fn preflight_reply(negotiating: bool, policy: CorsPolicyView) -> ResponseView {
    if negotiating {
        ResponseView { headers: policy_headers(policy), ..empty_response() }
    } else {
        empty_response()
    }
}

/// The mathematical value of a header value that may be absent.
pub open spec fn value_view(value: Option<&str>) -> Option<Seq<char>> {
    match value {
        Some(text) => Some(text@),
        None => None,
    }
}

/// Answers a request on the preflight route. The three arguments are the
/// values of the request's `Origin`, `Access-Control-Request-Method` and
/// `Access-Control-Request-Headers` headers, `None` for a header that the
/// request does not carry.
pub fn preflight(
    origin: Option<&str>,
    request_method: Option<&str>,
    request_headers: Option<&str>,
    policy: &CorsPolicy,
) -> (response: Response)
    ensures
        response@ == preflight_reply(
            negotiates(value_view(origin), value_view(request_method), value_view(request_headers)),
            policy@,
        ),
        origin is Some && request_method is Some && request_headers is Some ==> response@.headers
            == policy_headers(policy@),
        origin is None || request_method is None || request_headers is None ==> response@
            == empty_response(),
        origin is Some && request_method is Some && request_headers is Some && policy@
            == service_policy() ==> response@.headers == service_headers(),
{
    if origin.is_some() && request_method.is_some() && request_headers.is_some() {
        let headers = policy.headers();
        let response = Response::empty().with_headers(headers);
        assert(response@.headers =~= policy_headers(policy@));
        response
    } else {
        Response::empty()
    }
}

} // verus!

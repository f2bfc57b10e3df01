//! The request router: dispatch by HTTP method and URL path.
//!
//! Two fixed routes sit in front of the static-file service: the health check
//! answers GET on its own path, the upload handler answers POST on its own
//! path. Every other path falls through to static file serving, which only
//! answers GET. A request whose method does not fit its route is refused.

use vstd::prelude::*;

verus! {

/// The HTTP methods the router distinguishes. Every verb other than GET and
/// POST is `OtherVerb`: no route accepts it.
#[derive(Clone, Copy, PartialEq, Eq, Structural, Debug)]
pub enum HttpMethod {
    Get,
    Post,
    OtherVerb,
}

/// Where a request is dispatched.
#[derive(Clone, Copy, PartialEq, Eq, Structural, Debug)]
pub enum RouteTarget {
    /// GET on the health route: answer with the fixed health body.
    HealthCheck,
    /// POST on the upload route: run the upload handler.
    FileUpload,
    /// GET anywhere else: serve a static asset.
    StaticAsset,
    /// The path matched a route, but with the wrong method.
    MethodNotAllowed,
}

/// The routing table as a function of method and path.
pub open spec fn spec_route(m: HttpMethod, path: Seq<char>) -> RouteTarget {
    if path == "/server"@ {
        if m is Get {
            RouteTarget::HealthCheck
        } else {
            RouteTarget::MethodNotAllowed
        }
    } else if path == "/upload"@ {
        if m is Post {
            RouteTarget::FileUpload
        } else {
            RouteTarget::MethodNotAllowed
        }
    } else {
        if m is Get {
            RouteTarget::StaticAsset
        } else {
            RouteTarget::MethodNotAllowed
        }
    }
}

/// Dispatch one request: exactly the table `spec_route`.
pub fn route(m: HttpMethod, path: &str) -> (t: RouteTarget)
    ensures
        t == spec_route(m, path@),
{
    let p: String = path.to_owned();
    let server_path: String = "/server".to_owned();
    let upload_path: String = "/upload".to_owned();
    if p == server_path {
        if matches!(m, HttpMethod::Get) {
            RouteTarget::HealthCheck
        } else {
            RouteTarget::MethodNotAllowed
        }
    } else if p == upload_path {
        if matches!(m, HttpMethod::Post) {
            RouteTarget::FileUpload
        } else {
            RouteTarget::MethodNotAllowed
        }
    } else {
        if matches!(m, HttpMethod::Get) {
            RouteTarget::StaticAsset
        } else {
            RouteTarget::MethodNotAllowed
        }
    }
}

} // verus!

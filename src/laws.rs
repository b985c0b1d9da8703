use vstd::prelude::*;

use crate::body::hello_body;
use crate::http::RequestView;
use crate::server::Backend;

verus! {

/// Every request that a server's route takes is answered with status 200.
pub proof fn registered_route_answers_ok(b: Backend, req: RequestView)
    requires
        b.spec_route().admits(req),
    ensures
        b.spec_respond(req) matches Some(resp) && resp.status == 200,
{
}

/// Every answered request gets exactly the fifteen payload bytes as its body.
pub proof fn answered_body_is_payload(b: Backend, req: RequestView)
    requires
        b.spec_route().admits(req),
    ensures
        b.spec_respond(req) matches Some(resp) && resp.body == hello_body(),
        hello_body().len() == 15,
{
}

/// The headers and the body of a request have no bearing on its answer:
/// two requests with the same method and path get the same answer.
pub proof fn answer_ignores_headers_and_body(b: Backend, r1: RequestView, r2: RequestView)
    requires
        r1.method == r2.method,
        r1.path == r2.path,
    ensures
        b.spec_respond(r1) == b.spec_respond(r2),
{
}

/// No state carries over from one request to the next: a repeated request
/// gets the same answer, and so do any two requests that the route takes.
pub proof fn answers_are_repeatable(b: Backend, r1: RequestView, r2: RequestView)
    requires
        r1 == r2 || (b.spec_route().admits(r1) && b.spec_route().admits(r2)),
    ensures
        b.spec_respond(r1) == b.spec_respond(r2),
{
}

/// A request for a path other than the registered one is not answered by
/// the handler; it falls through to the framework's own default.
pub proof fn unregistered_path_falls_through(b: Backend, req: RequestView)
    requires
        b.spec_route().path matches Some(p) && p != req.path,
    ensures
        b.spec_respond(req) is None,
{
}

/// The server without a router answers every request, whatever its method and path.
pub proof fn routerless_server_answers_all(req: RequestView)
    ensures
        Backend::Hyper.spec_respond(req) is Some,
{
}

} // verus!

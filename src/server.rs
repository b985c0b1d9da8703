use vstd::prelude::*;

use crate::http::{response_view, Method, Request, RequestView, Response, ResponseView};
use crate::responder::{hello, hello_response, plaintext, plaintext_response};

verus! {

/// A route as a pair of filters; `None` lets anything through.
pub struct RouteView {
    pub method: Option<Method>,
    pub path: Option<Seq<char>>,
}

impl RouteView {
    /// Whether the route takes `req`.
    pub open spec fn admits(self, req: RequestView) -> bool {
        &&& (self.method matches Some(m) ==> m == req.method)
        &&& (self.path matches Some(p) ==> p == req.path)
    }
}

/// A registered route: the method and the exact path a handler answers.
/// A missing filter matches every method or every path.
#[derive(Clone, Debug)]
pub struct Route {
    pub method: Option<Method>,
    pub path: Option<String>,
}

impl View for Route {
    type V = RouteView;

    open spec fn view(&self) -> RouteView {
        RouteView {
            method: self.method,
            path: match self.path {
                Some(p) => Some(p@),
                None => None,
            },
        }
    }
}

impl Route {
    /// Whether the route takes `req`; headers and body play no part.
    pub fn matches(&self, req: &Request) -> (r: bool)
        ensures
            r == self@.admits(req@),
    {
        let method_ok = match self.method {
            Some(m) => m == req.method,
            None => true,
        };
        let path_ok = match &self.path {
            Some(p) => *p == req.path,
            None => true,
        };
        method_ok && path_ok
    }
}

/// Listener settings passed through to a server that takes them.
#[derive(Clone, Copy, Debug, PartialEq, Eq, Structural)]
pub struct Tuning {
    /// Length of the pending-connection queue.
    pub backlog: u32,
    /// Seconds to wait for a request head; 0 turns the timer off.
    pub client_timeout: u16,
    /// Seconds to wait for a graceful close; 0 turns the timer off.
    pub disconnect_timeout: u16,
    /// Read buffer high watermark, in bytes.
    pub read_high: u32,
    /// Write buffer high watermark, in bytes.
    pub write_high: u32,
    /// Buffer low watermark, in bytes.
    pub low: u32,
}

/// The three servers: one per HTTP framework, each with one handler.
#[derive(Clone, Copy, Debug, PartialEq, Eq, Structural)]
pub enum Backend {
    /// `GET /foo/bar` on 127.0.0.1:8542, answered by `hello`.
    ActixWeb,
    /// Every request on 127.0.0.1:8080, answered by `hello`; there is no router.
    Hyper,
    /// `GET /plaintext` on 0.0.0.0:8080, answered by `plaintext`.
    Ntex,
}

impl Backend {
    pub open spec fn spec_route(self) -> RouteView {
        match self {
            Backend::ActixWeb => RouteView { method: Some(Method::Get), path: Some("/foo/bar"@) },
            Backend::Hyper => RouteView { method: None, path: None },
            Backend::Ntex => RouteView { method: Some(Method::Get), path: Some("/plaintext"@) },
        }
    }

    pub open spec fn spec_handler_response(self) -> ResponseView {
        match self {
            Backend::ActixWeb => hello_response(),
            Backend::Hyper => hello_response(),
            Backend::Ntex => plaintext_response(),
        }
    }

    /// The answer to `req`: the handler's response where the route takes
    /// the request, else `None`, which leaves the answer to the framework.
    pub open spec fn spec_respond(self, req: RequestView) -> Option<ResponseView> {
        if self.spec_route().admits(req) {
            Some(self.spec_handler_response())
        } else {
            None
        }
    }

    pub open spec fn spec_address(self) -> Seq<char> {
        match self {
            Backend::ActixWeb => "127.0.0.1:8542"@,
            Backend::Hyper => "127.0.0.1:8080"@,
            Backend::Ntex => "0.0.0.0:8080"@,
        }
    }

    pub open spec fn spec_banner(self) -> Seq<char> {
        match self {
            Backend::ActixWeb => "Starting server at 127.0.0.1:8542"@,
            Backend::Hyper => "Listening on http://127.0.0.1:8080"@,
            Backend::Ntex => "Started http server: 127.0.0.1:8080"@,
        }
    }

    pub open spec fn spec_tuning(self) -> Option<Tuning> {
        match self {
            Backend::Ntex => Some(
                Tuning {
                    backlog: 1024,
                    client_timeout: 0,
                    disconnect_timeout: 0,
                    read_high: 65535,
                    write_high: 65535,
                    low: 1024,
                },
            ),
            _ => None,
        }
    }

    /// The route that the handler is registered under.
    pub fn route(self) -> (r: Route)
        ensures
            r@ == self.spec_route(),
    {
        match self {
            Backend::ActixWeb => Route { method: Some(Method::Get), path: Some("/foo/bar".to_owned()) },
            Backend::Hyper => Route { method: None, path: None },
            Backend::Ntex => Route { method: Some(Method::Get), path: Some("/plaintext".to_owned()) },
        }
    }

    /// What the handler answers to any request it is given.
    pub fn handler_response(self) -> (r: Response)
        ensures
            r@ == self.spec_handler_response(),
    {
        match self {
            Backend::ActixWeb => hello(),
            Backend::Hyper => hello(),
            Backend::Ntex => plaintext(),
        }
    }

    /// Dispatches `req`: `Some` with the handler's answer exactly when the
    /// route takes it, `None` for a request the framework answers itself.
    pub fn respond(self, req: &Request) -> (r: Option<Response>)
        ensures
            response_view(r) == self.spec_respond(req@),
    {
        if self.route().matches(req) {
            Some(self.handler_response())
        } else {
            None
        }
    }

    /// The socket address the server binds.
    pub fn address(self) -> (r: String)
        ensures
            r@ == self.spec_address(),
    {
        match self {
            Backend::ActixWeb => "127.0.0.1:8542".to_owned(),
            Backend::Hyper => "127.0.0.1:8080".to_owned(),
            Backend::Ntex => "0.0.0.0:8080".to_owned(),
        }
    }

    /// The line printed once at startup.
    pub fn banner(self) -> (r: String)
        ensures
            r@ == self.spec_banner(),
    {
        match self {
            Backend::ActixWeb => "Starting server at 127.0.0.1:8542".to_owned(),
            Backend::Hyper => "Listening on http://127.0.0.1:8080".to_owned(),
            Backend::Ntex => "Started http server: 127.0.0.1:8080".to_owned(),
        }
    }

    /// Listener settings; only the ntex server sets any.
    pub fn tuning(self) -> (r: Option<Tuning>)
        ensures
            r == self.spec_tuning(),
    {
        match self {
            Backend::Ntex => Some(
                Tuning {
                    backlog: 1024,
                    client_timeout: 0,
                    disconnect_timeout: 0,
                    read_high: 65535,
                    write_high: 65535,
                    low: 1024,
                },
            ),
            _ => None,
        }
    }
}

} // verus!

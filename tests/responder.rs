use hello_bench::body::hello_bytes;
use hello_bench::http::{Header, Method, Request, Response};
use hello_bench::message::Message;
use hello_bench::responder::{hello, plaintext};
use hello_bench::server::{Backend, Tuning};

fn header_pairs(r: &Response) -> Vec<(String, String)> {
    r.headers.iter().map(|h| (h.name.clone(), h.value.clone())).collect()
}

fn request_with_payload(method: Method, path: &str) -> Request {
    Request {
        method,
        path: path.to_string(),
        headers: vec![
            Header { name: "Accept".to_string(), value: "*/*".to_string() },
            Header { name: "X-Noise".to_string(), value: "42".to_string() },
        ],
        body: b"some request body".to_vec(),
    }
}

#[test]
fn payload_is_fifteen_bytes() {
    let b = hello_bytes();
    assert_eq!(b, b"Hello, World!\r\n".to_vec());
    assert_eq!(b.len(), 15);
}

#[test]
fn hello_has_three_headers_in_order() {
    let r = hello();
    assert_eq!(r.status, 200);
    assert_eq!(
        header_pairs(&r),
        vec![
            ("Content-Type".to_string(), "text/plain; charset=UTF-8".to_string()),
            ("Server".to_string(), "Example".to_string()),
            ("Date".to_string(), "Wed, 17 Apr 2013 12:00:00 GMT".to_string()),
        ]
    );
    assert_eq!(r.body, b"Hello, World!\r\n".to_vec());
}

#[test]
fn plaintext_has_server_then_content_type() {
    let r = plaintext();
    assert_eq!(r.status, 200);
    assert_eq!(
        header_pairs(&r),
        vec![
            ("Server".to_string(), "Example".to_string()),
            ("Content-Type".to_string(), "text/plain; charset=UTF-8".to_string()),
        ]
    );
    assert_eq!(r.body, b"Hello, World!\r\n".to_vec());
}

#[test]
fn actix_get_foo_bar() {
    let req = Request::new(Method::Get, "/foo/bar".to_string());
    let r = Backend::ActixWeb.respond(&req).expect("route is registered");
    assert_eq!(r.status, 200);
    assert_eq!(r.header("Content-Type"), Some("text/plain; charset=UTF-8".to_string()));
    assert_eq!(r.body, b"Hello, World!\r\n".to_vec());
    assert_eq!(Backend::ActixWeb.address(), "127.0.0.1:8542");
}

#[test]
fn ntex_get_plaintext() {
    let req = Request::new(Method::Get, "/plaintext".to_string());
    let r = Backend::Ntex.respond(&req).expect("route is registered");
    assert_eq!(r.status, 200);
    assert_eq!(r.header("Server"), Some("Example".to_string()));
    assert_eq!(r.header("Date"), None);
    assert_eq!(r.body, b"Hello, World!\r\n".to_vec());
    assert_eq!(Backend::Ntex.address(), "0.0.0.0:8080");
}

#[test]
fn registered_routes_answer_ok() {
    let cases = [
        (Backend::ActixWeb, "/foo/bar"),
        (Backend::Hyper, "/anything"),
        (Backend::Ntex, "/plaintext"),
    ];
    for (b, path) in cases {
        let r = b.respond(&request_with_payload(Method::Get, path)).expect("answered");
        assert_eq!(r.status, 200);
    }
}

#[test]
fn body_ignores_request_headers_and_body() {
    for b in [Backend::ActixWeb, Backend::Hyper, Backend::Ntex] {
        let path = match b {
            Backend::ActixWeb => "/foo/bar",
            Backend::Hyper => "/",
            Backend::Ntex => "/plaintext",
        };
        let bare = b.respond(&Request::new(Method::Get, path.to_string())).unwrap();
        let loaded = b.respond(&request_with_payload(Method::Get, path)).unwrap();
        assert_eq!(bare.body, b"Hello, World!\r\n".to_vec());
        assert_eq!(loaded.body, bare.body);
        assert_eq!(header_pairs(&loaded), header_pairs(&bare));
    }
}

#[test]
fn unregistered_paths_fall_through() {
    assert!(Backend::ActixWeb.respond(&Request::new(Method::Get, "/foo".to_string())).is_none());
    assert!(Backend::ActixWeb.respond(&Request::new(Method::Get, "/plaintext".to_string())).is_none());
    assert!(Backend::Ntex.respond(&Request::new(Method::Get, "/foo/bar".to_string())).is_none());
    assert!(Backend::Ntex.respond(&Request::new(Method::Get, "".to_string())).is_none());
}

#[test]
fn other_methods_fall_through() {
    assert!(Backend::ActixWeb.respond(&Request::new(Method::Post, "/foo/bar".to_string())).is_none());
    assert!(Backend::Ntex.respond(&Request::new(Method::Head, "/plaintext".to_string())).is_none());
}

#[test]
fn routerless_server_answers_every_path_and_method() {
    for (m, p) in [(Method::Get, "/"), (Method::Post, "/x/y"), (Method::Delete, ""), (Method::Other, "/plaintext")] {
        let r = Backend::Hyper.respond(&Request::new(m, p.to_string())).expect("answered");
        assert_eq!(r.status, 200);
        assert_eq!(r.header("Date"), Some("Wed, 17 Apr 2013 12:00:00 GMT".to_string()));
    }
}

#[test]
fn repeated_requests_get_identical_answers() {
    for b in [Backend::ActixWeb, Backend::Hyper, Backend::Ntex] {
        let req = Request::new(Method::Get, b.route().path.unwrap_or_else(|| "/".to_string()));
        let first = b.respond(&req).unwrap();
        for _ in 0..5 {
            let again = b.respond(&req).unwrap();
            assert_eq!(again.status, first.status);
            assert_eq!(header_pairs(&again), header_pairs(&first));
            assert_eq!(again.body, first.body);
        }
    }
}

#[test]
fn header_lookup_takes_first_and_is_exact() {
    let r = Response {
        status: 200,
        headers: vec![
            Header { name: "A".to_string(), value: "1".to_string() },
            Header { name: "B".to_string(), value: "2".to_string() },
            Header { name: "A".to_string(), value: "3".to_string() },
        ],
        body: Vec::new(),
    };
    assert_eq!(r.header("A"), Some("1".to_string()));
    assert_eq!(r.header("B"), Some("2".to_string()));
    assert_eq!(r.header("a"), None);
    assert_eq!(r.header(""), None);
    let empty = Response { status: 404, headers: Vec::new(), body: Vec::new() };
    assert_eq!(empty.header("A"), None);
}

#[test]
fn routes_of_each_server() {
    let a = Backend::ActixWeb.route();
    assert_eq!(a.method, Some(Method::Get));
    assert_eq!(a.path, Some("/foo/bar".to_string()));
    let h = Backend::Hyper.route();
    assert_eq!(h.method, None);
    assert_eq!(h.path, None);
    let n = Backend::Ntex.route();
    assert_eq!(n.method, Some(Method::Get));
    assert_eq!(n.path, Some("/plaintext".to_string()));
    assert!(n.matches(&request_with_payload(Method::Get, "/plaintext")));
    assert!(!n.matches(&request_with_payload(Method::Get, "/plaintext/")));
}

#[test]
fn startup_settings() {
    assert_eq!(Backend::ActixWeb.banner(), "Starting server at 127.0.0.1:8542");
    assert_eq!(Backend::Hyper.banner(), "Listening on http://127.0.0.1:8080");
    assert_eq!(Backend::Ntex.banner(), "Started http server: 127.0.0.1:8080");
    assert_eq!(Backend::Hyper.address(), "127.0.0.1:8080");
    assert_eq!(Backend::ActixWeb.tuning(), None);
    assert_eq!(Backend::Hyper.tuning(), None);
    assert_eq!(
        Backend::Ntex.tuning(),
        Some(Tuning {
            backlog: 1024,
            client_timeout: 0,
            disconnect_timeout: 0,
            read_high: 65535,
            write_high: 65535,
            low: 1024,
        })
    );
}

#[test]
fn message_holds_its_text() {
    let m = Message { message: "Hello, World!" };
    assert_eq!(m.message, "Hello, World!");
}

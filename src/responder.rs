use vstd::prelude::*;

use crate::body::{hello_body, hello_bytes};
use crate::http::{headers_view, Header, Method, Request, RequestView, Response, ResponseView};

verus! {

/// `Content-Type: text/plain; charset=UTF-8`
pub open spec fn content_type_line() -> (Seq<char>, Seq<char>) {
    ("Content-Type"@, "text/plain; charset=UTF-8"@)
}

/// `Server: Example`
pub open spec fn server_line() -> (Seq<char>, Seq<char>) {
    ("Server"@, "Example"@)
}

/// `Date: Wed, 17 Apr 2013 12:00:00 GMT`, a fixed value that is never recomputed.
pub open spec fn date_line() -> (Seq<char>, Seq<char>) {
    ("Date"@, "Wed, 17 Apr 2013 12:00:00 GMT"@)
}

/// The answer of the `hello` handler: content type, server and date, then the payload.
pub open spec fn hello_response() -> ResponseView {
    ResponseView {
        status: 200,
        headers: seq![content_type_line(), server_line(), date_line()],
        body: hello_body(),
    }
}

/// The answer of the `plaintext` handler: server and content type, then the payload.
pub open spec fn plaintext_response() -> ResponseView {
    ResponseView {
        status: 200,
        headers: seq![server_line(), content_type_line()],
        body: hello_body(),
    }
}

fn make_header(name: &str, value: &str) -> (h: Header)
    ensures
        h@ == (name@, value@),
{
    Header { name: name.to_owned(), value: value.to_owned() }
}

/// Builds the `hello` answer.
pub fn hello() -> (r: Response)
    ensures
        r@ == hello_response(),
{
    let mut headers: Vec<Header> = Vec::new();
    headers.push(make_header("Content-Type", "text/plain; charset=UTF-8"));
    headers.push(make_header("Server", "Example"));
    headers.push(make_header("Date", "Wed, 17 Apr 2013 12:00:00 GMT"));
    let r = Response { status: 200, headers, body: hello_bytes() };
    assert(headers_view(r.headers@) =~= hello_response().headers);
    r
}

/// Builds the `plaintext` answer.
pub fn plaintext() -> (r: Response)
    ensures
        r@ == plaintext_response(),
{
    let mut headers: Vec<Header> = Vec::new();
    headers.push(make_header("Server", "Example"));
    headers.push(make_header("Content-Type", "text/plain; charset=UTF-8"));
    let r = Response { status: 200, headers, body: hello_bytes() };
    assert(headers_view(r.headers@) =~= plaintext_response().headers);
    r
}

} // verus!

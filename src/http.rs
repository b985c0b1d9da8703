use vstd::prelude::*;

verus! {

/// The request method, as far as routing needs to tell methods apart.
#[derive(Clone, Copy, Debug, PartialEq, Eq, Structural)]
pub enum Method {
    Get,
    Head,
    Post,
    Put,
    Delete,
    Connect,
    Options,
    Trace,
    Patch,
    Other,
}

/// One header line: a name and its value.
#[derive(Clone, Debug)]
pub struct Header {
    pub name: String,
    pub value: String,
}

impl View for Header {
    type V = (Seq<char>, Seq<char>);

    open spec fn view(&self) -> (Seq<char>, Seq<char>) {
        (self.name@, self.value@)
    }
}

/// Views of a header list, in order.
pub open spec fn headers_view(hs: Seq<Header>) -> Seq<(Seq<char>, Seq<char>)> {
    hs.map_values(|h: Header| h@)
}

/// What a request looks like to the handlers.
pub struct RequestView {
    pub method: Method,
    pub path: Seq<char>,
    pub headers: Seq<(Seq<char>, Seq<char>)>,
    pub body: Seq<u8>,
}

/// An inbound request: method, path, headers and body.
#[derive(Clone, Debug)]
pub struct Request {
    pub method: Method,
    pub path: String,
    pub headers: Vec<Header>,
    pub body: Vec<u8>,
}

impl View for Request {
    type V = RequestView;

    open spec fn view(&self) -> RequestView {
        RequestView {
            method: self.method,
            path: self.path@,
            headers: headers_view(self.headers@),
            body: self.body@,
        }
    }
}

impl Request {
    /// A request with no headers and an empty body.
    pub fn new(method: Method, path: String) -> (r: Request)
        ensures
            r@ == (RequestView { method, path: path@, headers: Seq::empty(), body: Seq::empty() }),
    {
        let r = Request { method, path, headers: Vec::new(), body: Vec::new() };
        assert(headers_view(r.headers@) =~= Seq::empty());
        r
    }
}

/// What a response looks like on the wire, header order included.
pub struct ResponseView {
    pub status: u16,
    pub headers: Seq<(Seq<char>, Seq<char>)>,
    pub body: Seq<u8>,
}

/// An outbound response: status code, headers in order, and body.
#[derive(Clone, Debug)]
pub struct Response {
    pub status: u16,
    pub headers: Vec<Header>,
    pub body: Vec<u8>,
}

impl View for Response {
    type V = ResponseView;

    open spec fn view(&self) -> ResponseView {
        ResponseView {
            status: self.status,
            headers: headers_view(self.headers@),
            body: self.body@,
        }
    }
}

/// The view of an optional response.
pub open spec fn response_view(r: Option<Response>) -> Option<ResponseView> {
    match r {
        Some(resp) => Some(resp@),
        None => None,
    }
}

/// The value of the first header named `name`, if any.
pub open spec fn header_value(hs: Seq<(Seq<char>, Seq<char>)>, name: Seq<char>) -> Option<Seq<char>>
    decreases hs.len(),
{
    if hs.len() == 0 {
        None
    } else if hs[0].0 == name {
        Some(hs[0].1)
    } else {
        header_value(hs.drop_first(), name)
    }
}

/// Whether `r` is the value, copied out, that `header_value` gives.
pub open spec fn is_header_lookup(r: Option<String>, hs: Seq<(Seq<char>, Seq<char>)>, name: Seq<char>) -> bool {
    match r {
        Some(v) => header_value(hs, name) == Some(v@),
        None => header_value(hs, name) is None,
    }
}

impl Response {
    /// The value of the first header whose name is exactly `name`.
    pub fn header(&self, name: &str) -> (r: Option<String>)
        ensures
            is_header_lookup(r, self@.headers, name@),
    {
        let key = name.to_owned();
        let ghost hs = self@.headers;
        let n = self.headers.len();
        let mut i: usize = 0;
        assert(hs.subrange(0, n as int) =~= hs);
        while i < n
            invariant
                n == self.headers@.len(),
                hs == headers_view(self.headers@),
                0 <= i <= n,
                key@ == name@,
                header_value(hs, name@) == header_value(hs.subrange(i as int, n as int), name@),
            decreases n - i,
        {
            let h = &self.headers[i];
            assert(hs.subrange(i as int, n as int)[0] == h@);
            if h.name == key {
                return Some(h.value.clone());
            }
            assert(hs.subrange(i as int, n as int).drop_first() =~= hs.subrange(i + 1, n as int));
            i = i + 1;
        }
        assert(hs.subrange(n as int, n as int).len() == 0);
        None
    }
}

} // verus!

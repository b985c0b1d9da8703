use vstd::prelude::*;

verus! {

/// The payload every handler answers with: the ASCII bytes of
/// `Hello, World!` followed by a carriage return and a line feed.
pub open spec fn hello_body() -> Seq<u8> {
    seq![72u8, 101, 108, 108, 111, 44, 32, 87, 111, 114, 108, 100, 33, 13, 10]
}

/// Builds the payload bytes.
pub fn hello_bytes() -> (r: Vec<u8>)
    ensures
        r@ == hello_body(),
        r@.len() == 15,
{
    vec![72u8, 101, 108, 108, 111, 44, 32, 87, 111, 114, 108, 100, 33, 13, 10]
}

} // verus!

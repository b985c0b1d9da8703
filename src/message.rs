use vstd::prelude::*;

verus! {

/// A one-field record holding a fixed greeting.
pub struct Message {
    pub message: &'static str,
}

} // verus!

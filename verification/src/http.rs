use vstd::prelude::*;

verus! {

/// A wire response: the HTTP status code together with the body text.
pub struct Response {
    pub status: u16,
    pub body: String,
}

} // verus!

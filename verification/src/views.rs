//! The mathematical values of the byte containers that requests and responses
//! are made of.

use vstd::prelude::*;

verus! {

/// An ordered list of headers, each a name and a value, as sequences of bytes.
pub type HeaderSeq = Seq<(Seq<u8>, Seq<u8>)>;

/// The value of one header.
pub open spec fn header_view(h: (Vec<u8>, Vec<u8>)) -> (Seq<u8>, Seq<u8>) {
    (h.0@, h.1@)
}

/// The value of a list of headers: the same headers in the same order.
pub open spec fn headers_view(hs: Seq<(Vec<u8>, Vec<u8>)>) -> HeaderSeq {
    hs.map_values(|h: (Vec<u8>, Vec<u8>)| header_view(h))
}

/// The value of a body that may not be there.
pub open spec fn body_view(body: Option<Vec<u8>>) -> Option<Seq<u8>> {
    match body {
        Some(b) => Some(b@),
        None => None,
    }
}

} // verus!

use vstd::prelude::*;
use vstd::slice::slice_to_vec;
use vstd::string::StrSliceExecFns;
use vstd::utf8::encode_utf8;

verus! {

/// The body of a canonical request: either empty, literal text carried over
/// from the payload, or binary data obtained by decoding a base64 body.
///
/// Its view is the sequence of bytes the body stands for; a text body is
/// viewed as the UTF-8 encoding of its characters.
#[derive(Debug, Clone, PartialEq, Eq)]
pub enum Body {
    Empty,
    Text(String),
    Binary(Vec<u8>),
}

impl View for Body {
    type V = Seq<u8>;

    open spec fn view(&self) -> Seq<u8> {
        match self {
            Body::Empty => Seq::empty(),
            Body::Text(s) => encode_utf8(s@),
            Body::Binary(b) => b@,
        }
    }
}

impl Body {
    /// The bytes of the body, as a fresh vector.
    pub fn bytes(&self) -> (r: Vec<u8>)
        ensures
            r@ == self@,
    {
        match self {
            Body::Empty => Vec::new(),
            Body::Text(s) => s.as_str().as_bytes_vec(),
            Body::Binary(b) => slice_to_vec(b.as_slice()),
        }
    }
}

} // verus!

use vstd::prelude::*;

verus! {

/// Error reported when an incoming event payload cannot be parsed: a required
/// field is missing, the method is not a valid HTTP method token, or a header
/// name or value is not lexically valid.
#[derive(Clone, Copy, Debug, PartialEq, Eq, Structural)]
pub enum ParseError {
    MalformedPayload,
}

impl ParseError {
    /// A short human-readable description of the error.
    pub fn message(&self) -> (r: &'static str)
        ensures
            r@ == "malformed payload"@,
    {
        "malformed payload"
    }
}

} // verus!

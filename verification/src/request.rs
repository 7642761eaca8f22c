use vstd::prelude::*;
use vstd::string::StringExecFns;
use vstd::utf8::encode_utf8;

use crate::body::Body;
use crate::method::Method;

verus! {

/// What `base64::decode` returns for a given character sequence: the decoded
/// bytes under the standard alphabet, or nothing when the input is not valid
/// base64. The result depends on the input characters alone.
pub uninterp spec fn base64_decoding(s: Seq<char>) -> Option<Seq<u8>>;

/// Relies on base64::decode: standard-alphabet base64 decoding, a pure
/// function of the input string; a decode failure is reported as `None`.
#[verifier::external_body]
fn decode_base64(s: &str) -> (r: Option<Vec<u8>>)
    ensures
        r.deep_view() == base64_decoding(s@),
{
    match base64::decode(s) {
        Ok(v) => Some(v),
        Err(_) => None,
    }
}

/// A proxy event payload, parsed into plain values: the shape a serverless
/// platform delivers for an inbound HTTP request.
#[derive(Debug, Clone, PartialEq, Eq)]
pub struct VercelRequest {
    pub host: String,
    pub path: String,
    pub method: Method,
    pub headers: Vec<(String, String)>,
    pub body: Option<String>,
    pub encoding: Option<String>,
}

/// The outer event envelope: an action tag beside a body string. No
/// conversion is defined for it; it only carries the payload text.
#[derive(Debug, Clone, PartialEq, Eq)]
pub struct VercelEvent {
    pub action: String,
    pub body: String,
}

/// The canonical in-process request handed to downstream handler code.
#[derive(Debug, Clone, PartialEq, Eq)]
pub struct Request {
    pub method: Method,
    pub uri: String,
    pub headers: Vec<(String, String)>,
    pub body: Body,
}

/// The URI built for a payload: the literal scheme `https://`, the host and
/// the path, concatenated verbatim.
pub open spec fn uri_of(host: Seq<char>, path: Seq<char>) -> Seq<char> {
    "https://"@ + host + path
}

/// True when the payload's encoding field marks the body as base64.
pub open spec fn is_base64_marked(encoding: Option<String>) -> bool {
    encoding matches Some(e) && e@ == "base64"@
}

/// How the body of the canonical request is resolved from the payload:
/// an absent body is empty; a body marked base64 is decoded, and left empty
/// when it does not decode (decode failures are deliberately swallowed, not
/// surfaced); any other body is kept as literal text.
pub open spec fn body_resolved(body: Option<String>, encoding: Option<String>, out: Body) -> bool {
    match body {
        Option::None => out is Empty,
        Option::Some(b) => if is_base64_marked(encoding) {
            match base64_decoding(b@) {
                Option::Some(bytes) => out matches Body::Binary(d) && d@ == bytes,
                Option::None => out is Empty,
            }
        } else {
            out matches Body::Text(t) && t == b
        },
    }
}

/// The whole conversion contract: the canonical request keeps the payload's
/// method, builds its URI from scheme, host and path, carries the payload's
/// header collection over exactly, and resolves its body by the encoding.
pub open spec fn converts(v: VercelRequest, r: Request) -> bool {
    &&& r.method == v.method
    &&& r.uri@ == uri_of(v.host@, v.path@)
    &&& r.headers == v.headers
    &&& body_resolved(v.body, v.encoding, r.body)
}

impl VercelRequest {
    /// Converts the parsed payload into the canonical request.
    pub fn to_request(self) -> (r: Request)
        ensures
            converts(self, r),
    {
        let VercelRequest { host, path, method, headers, body, encoding } = self;
        let mut uri = String::from_str("https://");
        uri.append(host.as_str());
        uri.append(path.as_str());
        let marker = String::from_str("base64");
        let is_b64 = match &encoding {
            Some(e) => *e == marker,
            None => false,
        };
        let out = match body {
            Some(b) => if is_b64 {
                match decode_base64(b.as_str()) {
                    Some(bytes) => {
                        proof {
                            assert(bytes.deep_view() =~= bytes@);
                        }
                        Body::Binary(bytes)
                    },
                    None => Body::Empty,
                }
            } else {
                Body::Text(b)
            },
            None => Body::Empty,
        };
        Request { method, uri, headers, body: out }
    }
}

/// Law: with a body present and no base64 marking, the converted body holds
/// exactly the UTF-8 bytes of the payload's body text.
pub proof fn lemma_raw_text_body(v: VercelRequest, r: Request, b: String)
    requires
        converts(v, r),
        v.body == Some(b),
        !is_base64_marked(v.encoding),
    ensures
        r.body@ == encode_utf8(b@),
{
}

/// Law: with a body marked base64 that decodes, the converted body holds
/// exactly the decoded bytes.
pub proof fn lemma_base64_body(v: VercelRequest, r: Request, b: String, bytes: Seq<u8>)
    requires
        converts(v, r),
        v.body == Some(b),
        is_base64_marked(v.encoding),
        base64_decoding(b@) == Some(bytes),
    ensures
        r.body@ == bytes,
{
}

/// Law: with a body marked base64 that does not decode, the converted body is
/// empty.
pub proof fn lemma_bad_base64_body(v: VercelRequest, r: Request, b: String)
    requires
        converts(v, r),
        v.body == Some(b),
        is_base64_marked(v.encoding),
        base64_decoding(b@) is None,
    ensures
        r.body is Empty,
        r.body@ == Seq::<u8>::empty(),
{
}

/// Law: with the body absent, the converted body is empty whatever the
/// encoding field holds.
pub proof fn lemma_absent_body(v: VercelRequest, r: Request)
    requires
        converts(v, r),
        v.body is None,
    ensures
        r.body is Empty,
        r.body@ == Seq::<u8>::empty(),
{
}

/// Law: the converted header collection is exactly the payload's header
/// collection: the same names and values, in the same order, duplicates kept.
pub proof fn lemma_headers_exact(v: VercelRequest, r: Request)
    requires
        converts(v, r),
    ensures
        r.headers@ == v.headers@,
{
}

/// Law: the converted URI is exactly `https://` followed by the host and the
/// path, character for character.
pub proof fn lemma_uri_exact(v: VercelRequest, r: Request)
    requires
        converts(v, r),
    ensures
        r.uri@ == "https://"@ + v.host@ + v.path@,
{
}

} // verus!

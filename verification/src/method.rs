use vstd::prelude::*;
use vstd::string::StrSliceExecFns;

use crate::error::ParseError;
use crate::text::push_char;
use crate::text::to_upper_char;
use crate::text::upper_seq;

verus! {

/// True for the characters accepted in an HTTP method token: the token
/// characters the `http` crate's method parser admits.
pub open spec fn is_method_char(c: char) -> bool {
    ||| c == '!'
    ||| c == '*'
    ||| c == '+'
    ||| c == '-'
    ||| c == '.'
    ||| ('0' <= c && c <= '9')
    ||| ('A' <= c && c <= 'Z')
    ||| c == '^'
    ||| c == '_'
    ||| c == '`'
    ||| ('a' <= c && c <= 'z')
    ||| c == '|'
    ||| c == '~'
}

/// A method string is valid when it is non-empty and made of method token
/// characters only.
pub open spec fn is_valid_method(s: Seq<char>) -> bool {
    0 < s.len() && forall|i: int| 0 <= i < s.len() ==> is_method_char(#[trigger] s[i])
}

/// An HTTP method, held in its upper-case normal form: the wire value is
/// case-insensitive and is normalized when parsed.
#[derive(Debug, Clone, PartialEq, Eq)]
pub struct Method {
    inner: String,
}

impl View for Method {
    type V = Seq<char>;

    closed spec fn view(&self) -> Seq<char> {
        self.inner@
    }
}

impl Method {
    /// Parses a method string from the wire: rejects anything that is not a
    /// method token, and normalizes ASCII letters to upper case.
    pub fn parse(s: &str) -> (r: Result<Method, ParseError>)
        ensures
            r is Ok <==> is_valid_method(s@),
            r matches Ok(m) ==> m@ == upper_seq(s@),
            r matches Err(e) ==> e == ParseError::MalformedPayload,
    {
        let n = s.unicode_len();
        if n == 0 {
            return Err(ParseError::MalformedPayload);
        }
        let mut out = String::new();
        let mut i: usize = 0;
        while i < n
            invariant
                n == s@.len(),
                0 < n,
                i <= n,
                forall|j: int| 0 <= j < i ==> is_method_char(#[trigger] s@[j]),
                out@ == upper_seq(s@).take(i as int),
            decreases n - i,
        {
            let c = s.get_char(i);
            if !method_char(c) {
                return Err(ParseError::MalformedPayload);
            }
            push_char(&mut out, to_upper_char(c));
            proof {
                assert(out@ =~= upper_seq(s@).take(i as int + 1));
            }
            i = i + 1;
        }
        proof {
            assert(out@ =~= upper_seq(s@));
        }
        Ok(Method { inner: out })
    }

    /// The normalized method string.
    pub fn as_str(&self) -> (r: &str)
        ensures
            r@ == self@,
    {
        self.inner.as_str()
    }
}

fn method_char(c: char) -> (b: bool)
    ensures
        b == is_method_char(c),
{
    c == '!' || c == '*' || c == '+' || c == '-' || c == '.' || ('0' <= c && c <= '9') || ('A'
        <= c && c <= 'Z') || c == '^' || c == '_' || c == '`' || ('a' <= c && c <= 'z') || c == '|'
        || c == '~'
}

} // verus!

use vstd::prelude::*;
use vstd::string::StrSliceExecFns;

use crate::error::ParseError;
use crate::text::lower_seq;
use crate::text::push_char;
use crate::text::to_lower_char;

verus! {

/// True for the characters accepted in a header name: the characters the
/// `http` crate's header-name parser admits (upper-case ASCII letters are
/// accepted on the wire and normalized to lower case).
pub open spec fn is_header_name_char(c: char) -> bool {
    ||| c == '!'
    ||| c == '"'
    ||| c == '#'
    ||| c == '$'
    ||| c == '%'
    ||| c == '&'
    ||| c == '\''
    ||| c == '*'
    ||| c == '+'
    ||| c == '-'
    ||| c == '.'
    ||| ('0' <= c && c <= '9')
    ||| ('A' <= c && c <= 'Z')
    ||| c == '^'
    ||| c == '_'
    ||| c == '`'
    ||| ('a' <= c && c <= 'z')
    ||| c == '|'
    ||| c == '~'
}

/// A header name is valid when it is non-empty and made of header name
/// characters only.
pub open spec fn is_valid_header_name(s: Seq<char>) -> bool {
    0 < s.len() && forall|i: int| 0 <= i < s.len() ==> is_header_name_char(#[trigger] s[i])
}

/// True for the characters accepted in a header value: horizontal tab and
/// every character from space upward except delete, as the `http` crate's
/// header-value parser admits at the byte level.
pub open spec fn is_header_value_char(c: char) -> bool {
    c == '\t' || (' ' <= c && c != '\u{7f}')
}

/// A header value is valid when every one of its characters is; the empty
/// value is valid.
pub open spec fn is_valid_header_value(s: Seq<char>) -> bool {
    forall|i: int| 0 <= i < s.len() ==> is_header_value_char(#[trigger] s[i])
}

/// A header entry is valid when its name and its value both are.
pub open spec fn is_valid_header(h: (String, String)) -> bool {
    is_valid_header_name(h.0@) && is_valid_header_value(h.1@)
}

/// Parses a header name from the wire: rejects anything that is not a valid
/// header name, and normalizes ASCII letters to lower case.
pub fn parse_header_name(s: &str) -> (r: Result<String, ParseError>)
    ensures
        r is Ok <==> is_valid_header_name(s@),
        r matches Ok(n) ==> n@ == lower_seq(s@),
        r matches Err(e) ==> e == ParseError::MalformedPayload,
{
    let n = s.unicode_len();
    if n == 0 {
        return Err(ParseError::MalformedPayload);
    }
    let mut out = String::new();
    let mut i: usize = 0;
    while i < n
        invariant
            n == s@.len(),
            0 < n,
            i <= n,
            forall|j: int| 0 <= j < i ==> is_header_name_char(#[trigger] s@[j]),
            out@ == lower_seq(s@).take(i as int),
        decreases n - i,
    {
        let c = s.get_char(i);
        if !header_name_char(c) {
            return Err(ParseError::MalformedPayload);
        }
        push_char(&mut out, to_lower_char(c));
        proof {
            assert(out@ =~= lower_seq(s@).take(i as int + 1));
        }
        i = i + 1;
    }
    proof {
        assert(out@ =~= lower_seq(s@));
    }
    Ok(out)
}

/// Checks a header value from the wire.
pub fn check_header_value(s: &str) -> (b: bool)
    ensures
        b == is_valid_header_value(s@),
{
    let n = s.unicode_len();
    let mut i: usize = 0;
    while i < n
        invariant
            n == s@.len(),
            i <= n,
            forall|j: int| 0 <= j < i ==> is_header_value_char(#[trigger] s@[j]),
        decreases n - i,
    {
        let c = s.get_char(i);
        if !header_value_char(c) {
            return false;
        }
        i = i + 1;
    }
    true
}

/// Parses a header list from the wire: rejects the list as soon as one entry
/// has an invalid name or value, and otherwise keeps every entry in order,
/// with its name in lower-case normal form and its value untouched.
pub fn parse_headers(raw: Vec<(String, String)>) -> (r: Result<Vec<(String, String)>, ParseError>)
    ensures
        r is Ok <==> (forall|i: int| 0 <= i < raw@.len() ==> is_valid_header(#[trigger] raw@[i])),
        r matches Ok(hs) ==> {
            &&& hs@.len() == raw@.len()
            &&& forall|i: int|
                0 <= i < raw@.len() ==> (#[trigger] hs@[i]).0@ == lower_seq(raw@[i].0@)
                    && hs@[i].1@ == raw@[i].1@
        },
        r matches Err(e) ==> e == ParseError::MalformedPayload,
{
    let n = raw.len();
    let mut out: Vec<(String, String)> = Vec::new();
    let mut i: usize = 0;
    while i < n
        invariant
            n == raw@.len(),
            i <= n,
            out@.len() == i,
            forall|j: int| 0 <= j < i ==> is_valid_header(#[trigger] raw@[j]),
            forall|j: int|
                0 <= j < i ==> (#[trigger] out@[j]).0@ == lower_seq(raw@[j].0@) && out@[j].1@
                    == raw@[j].1@,
        decreases n - i,
    {
        let name = match parse_header_name(raw[i].0.as_str()) {
            Ok(nm) => nm,
            Err(e) => {
                return Err(e);
            },
        };
        if !check_header_value(raw[i].1.as_str()) {
            return Err(ParseError::MalformedPayload);
        }
        let value = raw[i].1.clone();
        out.push((name, value));
        i = i + 1;
    }
    Ok(out)
}

fn header_name_char(c: char) -> (b: bool)
    ensures
        b == is_header_name_char(c),
{
    c == '!' || c == '"' || c == '#' || c == '$' || c == '%' || c == '&' || c == '\'' || c == '*'
        || c == '+' || c == '-' || c == '.' || ('0' <= c && c <= '9') || ('A' <= c && c <= 'Z')
        || c == '^' || c == '_' || c == '`' || ('a' <= c && c <= 'z') || c == '|' || c == '~'
}

fn header_value_char(c: char) -> (b: bool)
    ensures
        b == is_header_value_char(c),
{
    c == '\t' || (' ' <= c && c != '\u{7f}')
}

} // verus!

//! The session identifiers of an inbound request.

use vstd::prelude::*;
use crate::common::SessionQueryHeaders;
use crate::text::chars_of;

verus! {

/// `c` is white space: a character with the Unicode property `White_Space`.
pub open spec fn is_white_space(c: char) -> bool {
    ||| '\u{9}' <= c <= '\u{d}'
    ||| c == ' '
    ||| c == '\u{85}'
    ||| c == '\u{a0}'
    ||| c == '\u{1680}'
    ||| '\u{2000}' <= c <= '\u{200a}'
    ||| c == '\u{2028}'
    ||| c == '\u{2029}'
    ||| c == '\u{202f}'
    ||| c == '\u{205f}'
    ||| c == '\u{3000}'
}

/// `s` holds nothing but white space.
pub open spec fn is_blank(s: Seq<char>) -> bool {
    forall|i: int| 0 <= i < s.len() ==> is_white_space(#[trigger] s[i])
}

/// A header value as an identifier: absent where the header is absent or
/// its value is blank.
pub open spec fn identifier_spec(value: Option<String>) -> Option<String> {
    match value {
        Some(v) => if is_blank(v@) {
            None
        } else {
            Some(v)
        },
        None => None,
    }
}

fn white_space(c: char) -> (r: bool)
    ensures
        r == is_white_space(c),
{
    ('\u{9}' <= c && c <= '\u{d}') || c == ' ' || c == '\u{85}' || c == '\u{a0}' || c
        == '\u{1680}' || ('\u{2000}' <= c && c <= '\u{200a}') || c == '\u{2028}' || c
        == '\u{2029}' || c == '\u{202f}' || c == '\u{205f}' || c == '\u{3000}'
}

/// Whether `s` holds nothing but white space.
pub fn blank(s: &str) -> (r: bool)
    ensures
        r == is_blank(s@),
{
    let chars = chars_of(s);
    let n = chars.len();
    let mut i: usize = 0;
    while i < n
        invariant
            i <= n,
            n == chars@.len(),
            chars@ == s@,
            forall|j: int| 0 <= j < i ==> is_white_space(#[trigger] s@[j]),
        decreases n - i,
    {
        if !white_space(chars[i]) {
            return false;
        }
        i = i + 1;
    }
    true
}

/// The identifier that a header value stands for, if any.
pub fn identifier(value: Option<String>) -> (r: Option<String>)
    ensures
        r == identifier_spec(value),
{
    match value {
        Some(v) => {
            if blank(v.as_str()) {
                None
            } else {
                Some(v)
            }
        },
        None => None,
    }
}

/// The session identifiers that an inbound request carries.
#[derive(Debug, Clone, PartialEq, Eq)]
pub struct ExtractSession(pub SessionQueryHeaders);

impl ExtractSession {
    /// Reads the session out of the values of the call-identifier header and
    /// of the session-identifier header of an inbound request. A header
    /// that is absent, or whose value is blank, gives no identifier.
    pub fn from_header_values(call_id: Option<String>, session_id: Option<String>) -> (r:
        ExtractSession)
        ensures
            r.0.call_id == identifier_spec(call_id),
            r.0.session_id == identifier_spec(session_id),
    {
        ExtractSession(
            SessionQueryHeaders {
                call_id: identifier(call_id),
                session_id: identifier(session_id),
            },
        )
    }

    /// The session that was read.
    pub fn session(&self) -> (s: &SessionQueryHeaders)
        ensures
            *s == self.0,
    {
        &self.0
    }
}

} // verus!

//! Configuration of a client: what the caller gave, what the process holds
//! as defaults, and what a client is built with.

use vstd::prelude::*;
use crate::text::chars_of;

verus! {

/// Endpoint of a client where neither the caller nor the process names one.
pub const DEFAULT_ENDPOINT: &'static str = "http://database:8890/sparql";

/// Name of the environment variable that holds the timeout, in seconds.
pub const REQUEST_TIMEOUT_SECONDS: &'static str = "REQUEST_TIMEOUT_SECONDS";

/// Timeout of a client, in seconds, where neither the caller nor the
/// process gives one.
pub const DEFAULT_TIMEOUT_SECONDS: u64 = 60;

/// How long to wait for a response: whole seconds and a fraction of a
/// second in nanoseconds.
#[derive(Debug, Default, Clone, Copy, PartialEq, Eq, Structural)]
pub struct Timeout {
    pub secs: u64,
    pub nanos: u32,
}

/// What the caller asks of a client. A field left out is taken from the
/// process's defaults when the client is built.
#[derive(Debug, Default, Clone, PartialEq, Eq)]
pub struct Config {
    pub endpoint: Option<String>,
    pub timeout: Option<Timeout>,
}

/// The values that the process holds for what a `Config` leaves out: the
/// endpoint, and the timeout as the text of a number of seconds.
#[derive(Debug, Default, Clone, PartialEq, Eq)]
pub struct ProcessDefaults {
    pub endpoint: Option<String>,
    pub timeout_seconds: Option<String>,
}

/// Why no client could be built.
#[derive(Debug, Clone, PartialEq, Eq)]
pub enum ConfigError {
    /// The process's timeout is not a number of seconds; holds its text.
    InvalidTimeout(String),
}

/// `c` is a decimal digit.
pub open spec fn is_digit(c: char) -> bool {
    '0' <= c <= '9'
}

/// The number that the decimal digits `digits` write.
pub open spec fn digits_value(digits: Seq<char>) -> nat
    decreases digits.len(),
{
    if digits.len() == 0 {
        0
    } else {
        digits_value(digits.drop_last()) * 10 + (digits.last() as nat - '0' as nat) as nat
    }
}

/// The digits of a number's text: the text without a leading plus sign.
pub open spec fn unsigned_part(text: Seq<char>) -> Seq<char> {
    if text.len() > 0 && text[0] == '+' {
        text.subrange(1, text.len() as int)
    } else {
        text
    }
}

/// The number of seconds that `text` writes: one or more decimal digits,
/// with or without a plus sign before them, whose number fits 64 bits.
pub open spec fn parse_seconds_spec(text: Seq<char>) -> Option<u64> {
    let digits = unsigned_part(text);
    if digits.len() > 0 && (forall|i: int| 0 <= i < digits.len() ==> is_digit(#[trigger] digits[i]))
        && digits_value(digits) <= u64::MAX {
        Some(digits_value(digits) as u64)
    } else {
        None
    }
}

/// A number written with more digits is no smaller than the number that a
/// prefix of them writes.
proof fn lemma_digits_value_grows(digits: Seq<char>, k: int)
    requires
        0 <= k <= digits.len(),
    ensures
        digits_value(digits.subrange(0, k)) <= digits_value(digits),
    decreases digits.len(),
{
    if k == digits.len() {
        assert(digits.subrange(0, k) == digits);
    } else {
        lemma_digits_value_grows(digits.drop_last(), k);
        assert(digits.drop_last().subrange(0, k) == digits.subrange(0, k));
    }
}

/// Reads a number of seconds.
pub fn parse_seconds(text: &str) -> (r: Option<u64>)
    ensures
        r == parse_seconds_spec(text@),
{
    let chars = chars_of(text);
    let n = chars.len();
    let start: usize = if n > 0 && chars[0] == '+' {
        1
    } else {
        0
    };
    if start == n {
        return None;
    }
    let ghost digits = unsigned_part(text@);
    let mut value: u64 = 0;
    let mut i: usize = start;
    assert(digits.subrange(0, 0).len() == 0);
    while i < n
        invariant
            start <= i <= n,
            start <= 1,
            n == text@.len(),
            chars@ == text@,
            digits == unsigned_part(text@),
            digits.len() == n - start,
            forall|j: int| 0 <= j < digits.len() ==> digits[j] == text@[j + start],
            forall|j: int| 0 <= j < i - start ==> is_digit(#[trigger] digits[j]),
            value == digits_value(digits.subrange(0, i - start)),
        decreases n - i,
    {
        let c = chars[i];
        let ghost k = i - start;
        assert(digits[k] == c);
        if !('0' <= c && c <= '9') {
            return None;
        }
        let d: u64 = (c as u32 - '0' as u32) as u64;
        proof {
            assert(digits.subrange(0, k + 1).drop_last() == digits.subrange(0, k));
            assert(digits.subrange(0, k + 1).last() == c);
            lemma_digits_value_grows(digits, k + 1);
        }
        if value > (u64::MAX - d) / 10 {
            return None;
        }
        value = value * 10 + d;
        i = i + 1;
    }
    assert(digits.subrange(0, n - start) == digits);
    Some(value)
}

/// The endpoint of a client: the caller's, else the process's, else the
/// built-in one.
pub open spec fn resolved_endpoint(config: Config, defaults: ProcessDefaults) -> Seq<char> {
    match config.endpoint {
        Some(endpoint) => endpoint@,
        None => match defaults.endpoint {
            Some(endpoint) => endpoint@,
            None => DEFAULT_ENDPOINT@,
        },
    }
}

/// The timeout of a client: the caller's; else the process's number of
/// seconds, and none where its text is no such number; else the built-in
/// one.
pub open spec fn resolved_timeout(config: Config, defaults: ProcessDefaults) -> Option<Timeout> {
    match config.timeout {
        Some(timeout) => Some(timeout),
        None => match defaults.timeout_seconds {
            Some(text) => match parse_seconds_spec(text@) {
                Some(secs) => Some(Timeout { secs, nanos: 0 }),
                None => None,
            },
            None => Some(Timeout { secs: DEFAULT_TIMEOUT_SECONDS, nanos: 0 }),
        },
    }
}

} // verus!

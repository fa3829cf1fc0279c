use vstd::prelude::*;

verus! {

/// Name of the header that carries the request quota of the current window.
pub const LIMIT_HEADER: &'static str = "x-ratelimit-limit";

/// Name of the header that carries the calls left in the current window.
pub const REMAINING_HEADER: &'static str = "x-ratelimit-remaining";

/// Name of the header that carries when the current window ends.
pub const RESET_HEADER: &'static str = "x-ratelimit-reset";

/// Quota information read from one response's headers. A field is `None`
/// when its header is absent or does not hold a decimal number.
#[derive(Debug, Clone, Copy, PartialEq, Eq)]
pub struct RateLimit {
    pub limit: Option<u64>,
    pub remaining: Option<u64>,
    pub reset: Option<u64>,
}

/// Whether `c` is an ASCII decimal digit.
pub open spec fn is_digit(c: char) -> bool {
    '0' <= c && c <= '9'
}

/// The number written by the decimal digits `s`, most significant first.
pub open spec fn digits_value(s: Seq<char>) -> nat
    decreases s.len(),
{
    if s.len() == 0 {
        0
    } else {
        digits_value(s.drop_last()) * 10 + (s.last() as nat - '0' as nat) as nat
    }
}

/// The digits of a decimal number: an optional leading `+` is not part of them.
pub open spec fn unsigned_digits(s: Seq<char>) -> Seq<char> {
    if s.len() > 0 && s[0] == '+' {
        s.drop_first()
    } else {
        s
    }
}

/// `s` read as a `u64` the way Rust reads unsigned integers: an optional `+`,
/// then one or more decimal digits, of a value that fits.
pub open spec fn parse_u64_spec(s: Seq<char>) -> Option<u64> {
    let d = unsigned_digits(s);
    if d.len() > 0 && (forall|i: int| 0 <= i < d.len() ==> is_digit(#[trigger] d[i]))
        && digits_value(d) <= u64::MAX {
        Some(digits_value(d) as u64)
    } else {
        None
    }
}

/// Whether header name `name` is `target` up to ASCII case; `target` is
/// written in lower case.
pub open spec fn header_name_matches(name: Seq<char>, target: Seq<char>) -> bool {
    name.len() == target.len() && forall|i: int|
        0 <= i < name.len() ==> (#[trigger] name[i] == target[i] || ('A' <= name[i] && name[i]
            <= 'Z' && name[i] as u32 + 32 == target[i] as u32))
}

/// The value of the first header named `target`, if any.
pub open spec fn header_value(headers: Seq<(String, String)>, target: Seq<char>) -> Option<
    Seq<char>,
>
    decreases headers.len(),
{
    if headers.len() == 0 {
        None
    } else if header_name_matches(headers[0].0@, target) {
        Some(headers[0].1@)
    } else {
        header_value(headers.drop_first(), target)
    }
}

/// The number in the first header named `target`; `None` when that header is
/// absent or malformed.
pub open spec fn header_number(headers: Seq<(String, String)>, target: Seq<char>) -> Option<u64> {
    match header_value(headers, target) {
        Some(v) => parse_u64_spec(v),
        None => None,
    }
}

/// The snapshot that `from_headers` builds from `headers`.
pub open spec fn rate_limit_of(headers: Seq<(String, String)>) -> RateLimit {
    RateLimit {
        limit: header_number(headers, LIMIT_HEADER@),
        remaining: header_number(headers, REMAINING_HEADER@),
        reset: header_number(headers, RESET_HEADER@),
    }
}

/// Whether `name` is one of the headers a snapshot is read from.
pub open spec fn is_rate_limit_header(name: Seq<char>) -> bool {
    header_name_matches(name, LIMIT_HEADER@) || header_name_matches(name, REMAINING_HEADER@)
        || header_name_matches(name, RESET_HEADER@)
}

proof fn lemma_digits_value_prefix(s: Seq<char>, k: int)
    requires
        0 <= k <= s.len(),
        forall|i: int| 0 <= i < s.len() ==> is_digit(#[trigger] s[i]),
    ensures
        digits_value(s.subrange(0, k)) <= digits_value(s),
    decreases s.len(),
{
    if k < s.len() {
        assert(s.drop_last().subrange(0, k) =~= s.subrange(0, k));
        lemma_digits_value_prefix(s.drop_last(), k);
    } else {
        assert(s.subrange(0, k) =~= s);
    }
}

/// Reads `s` as a `u64`: an optional `+`, then decimal digits; `None` on
/// anything else or on overflow.
pub fn parse_u64(s: &str) -> (r: Option<u64>)
    ensures
        r == parse_u64_spec(s@),
{
    let n = s.unicode_len();
    let ghost d = unsigned_digits(s@);
    let mut i: usize = 0;
    if n > 0 && s.get_char(0) == '+' {
        i = 1;
    }
    let start = i;
    assert(d =~= s@.subrange(start as int, n as int));
    if i == n {
        return None;
    }
    let mut acc: u64 = 0;
    while i < n
        invariant
            start <= i <= n,
            n == s@.len(),
            d == unsigned_digits(s@),
            d =~= s@.subrange(start as int, n as int),
            forall|j: int| 0 <= j < i - start ==> is_digit(#[trigger] d[j]),
            acc == digits_value(d.subrange(0, i - start)),
        decreases n - i,
    {
        let c = s.get_char(i);
        assert(d[i - start] == c);
        if !('0' <= c && c <= '9') {
            assert(!is_digit(d[i - start]));
            return None;
        }
        let ghost pre = d.subrange(0, i - start);
        let ghost next = d.subrange(0, i + 1 - start);
        assert(next.drop_last() =~= pre);
        let digit = (c as u32 - '0' as u32) as u64;
        assert(next.last() == c);
        assert(digits_value(next) == acc * 10 + digit);
        match acc.checked_mul(10) {
            Some(m) => match m.checked_add(digit) {
                Some(a) => {
                    acc = a;
                },
                None => {
                    proof {
                        if forall|j: int| 0 <= j < d.len() ==> is_digit(#[trigger] d[j]) {
                            lemma_digits_value_prefix(d, i + 1 - start);
                        }
                    }
                    return None;
                },
            },
            None => {
                proof {
                    if forall|j: int| 0 <= j < d.len() ==> is_digit(#[trigger] d[j]) {
                        lemma_digits_value_prefix(d, i + 1 - start);
                    }
                }
                return None;
            },
        }
        i = i + 1;
    }
    assert(d.subrange(0, n - start) =~= d);
    Some(acc)
}


/// Compares header name `name` with `target` up to ASCII case.
fn name_matches(name: &str, target: &str) -> (r: bool)
    ensures
        r == header_name_matches(name@, target@),
{
    let n = name.unicode_len();
    if n != target.unicode_len() {
        return false;
    }
    let mut i: usize = 0;
    while i < n
        invariant
            i <= n,
            n == name@.len(),
            n == target@.len(),
            forall|j: int|
                0 <= j < i ==> (#[trigger] name@[j] == target@[j] || ('A' <= name@[j] && name@[j]
                    <= 'Z' && name@[j] as u32 + 32 == target@[j] as u32)),
        decreases n - i,
    {
        let c = name.get_char(i);
        let t = target.get_char(i);
        if !(c == t || ('A' <= c && c <= 'Z' && c as u32 + 32 == t as u32)) {
            return false;
        }
        i = i + 1;
    }
    true
}

/// The number in the first header of `headers` named `target`.
fn header_number_in(headers: &Vec<(String, String)>, target: &str) -> (r: Option<u64>)
    ensures
        r == header_number(headers@, target@),
{
    let mut i: usize = 0;
    assert(headers@.subrange(0, headers@.len() as int) =~= headers@);
    while i < headers.len()
        invariant
            i <= headers@.len(),
            header_value(headers@.subrange(i as int, headers@.len() as int), target@)
                == header_value(headers@, target@),
        decreases headers.len() - i,
    {
        let ghost rest = headers@.subrange(i as int, headers@.len() as int);
        assert(rest.drop_first() =~= headers@.subrange(i + 1, headers@.len() as int));
        if name_matches(headers[i].0.as_str(), target) {
            return parse_u64(headers[i].1.as_str());
        }
        i = i + 1;
    }
    None
}

impl RateLimit {
    /// Reads a snapshot from a response's headers. Missing or malformed
    /// headers leave their field `None`; this never fails.
    pub fn from_headers(headers: &Vec<(String, String)>) -> (r: RateLimit)
        ensures
            r == rate_limit_of(headers@),
    {
        RateLimit {
            limit: header_number_in(headers, LIMIT_HEADER),
            remaining: header_number_in(headers, REMAINING_HEADER),
            reset: header_number_in(headers, RESET_HEADER),
        }
    }
}

impl Default for RateLimit {
    /// The neutral snapshot: nothing is known of the quota.
    fn default() -> (r: RateLimit)
        ensures
            r == (RateLimit { limit: None, remaining: None, reset: None }),
    {
        RateLimit { limit: None, remaining: None, reset: None }
    }
}

proof fn lemma_absent_header(headers: Seq<(String, String)>, target: Seq<char>)
    requires
        forall|i: int|
            0 <= i < headers.len() ==> !header_name_matches(#[trigger] headers[i].0@, target),
    ensures
        header_value(headers, target) is None,
    decreases headers.len(),
{
    if headers.len() > 0 {
        assert(!header_name_matches(headers[0].0@, target));
        assert forall|i: int| 0 <= i < headers.drop_first().len() implies !header_name_matches(
            #[trigger] headers.drop_first()[i].0@,
            target,
        ) by {
            assert(headers.drop_first()[i] == headers[i + 1]);
        }
        lemma_absent_header(headers.drop_first(), target);
    }
}

/// A header set with no rate-limit header yields the neutral snapshot.
pub proof fn lemma_no_rate_limit_headers_neutral(headers: Seq<(String, String)>)
    requires
        forall|i: int| 0 <= i < headers.len() ==> !is_rate_limit_header(#[trigger] headers[i].0@),
    ensures
        rate_limit_of(headers) == (RateLimit { limit: None, remaining: None, reset: None }),
{
    assert forall|i: int| 0 <= i < headers.len() implies !header_name_matches(
        #[trigger] headers[i].0@,
        LIMIT_HEADER@,
    ) by {
        assert(!is_rate_limit_header(headers[i].0@));
    }
    assert forall|i: int| 0 <= i < headers.len() implies !header_name_matches(
        #[trigger] headers[i].0@,
        REMAINING_HEADER@,
    ) by {
        assert(!is_rate_limit_header(headers[i].0@));
    }
    assert forall|i: int| 0 <= i < headers.len() implies !header_name_matches(
        #[trigger] headers[i].0@,
        RESET_HEADER@,
    ) by {
        assert(!is_rate_limit_header(headers[i].0@));
    }
    lemma_absent_header(headers, LIMIT_HEADER@);
    lemma_absent_header(headers, REMAINING_HEADER@);
    lemma_absent_header(headers, RESET_HEADER@);
}

} // verus!

//! Parsing and formatting of `host:port` addresses.

use vstd::prelude::*;
use vstd::string::*;
use crate::error::{HoError, HoResult};
use crate::text::{decimal, decimal_string};

verus! {

/// `c` is an ASCII decimal digit.
pub open spec fn is_digit(c: char) -> bool {
    '0' <= c && c <= '9'
}

/// Every character of `s` is a decimal digit.
pub open spec fn all_digits(s: Seq<char>) -> bool {
    forall|i: int| 0 <= i < s.len() ==> is_digit(#[trigger] s[i])
}

/// The value of a digit string, most significant digit first.
pub open spec fn digits_value(s: Seq<char>) -> nat
    decreases s.len(),
{
    if s.len() == 0 {
        0
    } else {
        10 * digits_value(s.drop_last()) + ((s.last() as nat) - ('0' as nat)) as nat
    }
}

/// The digits of a port text: without one leading `+`, if present.
pub open spec fn port_digits(s: Seq<char>) -> Seq<char> {
    if s.len() > 0 && s[0] == '+' {
        s.drop_first()
    } else {
        s
    }
}

/// The port a text denotes: an optional `+` and one or more digits whose
/// value fits 16 bits.
pub open spec fn port_of(s: Seq<char>) -> Option<u16> {
    let d = port_digits(s);
    if d.len() > 0 && all_digits(d) && digits_value(d) <= 65535 {
        Some(digits_value(d) as u16)
    } else {
        None
    }
}

/// `i` is the position of the last `:` of `s`.
pub open spec fn is_last_colon(s: Seq<char>, i: int) -> bool {
    0 <= i < s.len() && s[i] == ':' && forall|j: int| i < j < s.len() ==> s[j] != ':'
}

/// `s` holds a `:`.
pub open spec fn has_colon(s: Seq<char>) -> bool {
    exists|i: int| 0 <= i < s.len() && s[i] == ':'
}

/// A digit string's value is at least that of each of its prefixes.
pub proof fn lemma_digits_value_prefix(s: Seq<char>, j: int)
    requires
        0 <= j <= s.len(),
        all_digits(s),
    ensures
        digits_value(s.subrange(0, j)) <= digits_value(s),
    decreases s.len() - j,
{
    if j < s.len() {
        lemma_digits_value_prefix(s, j + 1);
        let p = s.subrange(0, j + 1);
        assert(p.drop_last() =~= s.subrange(0, j));
        assert(is_digit(s[j]));
    } else {
        assert(s.subrange(0, j) =~= s);
    }
}

/// One group of an IPv4 literal: one to three digits, no leading zero
/// unless the group is `0`, and a value of at most 255.
pub open spec fn octet_ok(s: Seq<char>) -> bool {
    &&& 1 <= s.len() <= 3
    &&& all_digits(s)
    &&& (s.len() == 1 || s[0] != '0')
    &&& digits_value(s) <= 255
}

/// `s` is an IPv4 literal in dotted-quad form, as a socket address reads
/// its host: four groups separated by single dots.
pub open spec fn is_ipv4_literal(s: Seq<char>) -> bool {
    exists|w: (int, int, int)| quad_at(s, w.0, w.1, w.2)
}

/// Whether `t` is one group of an IPv4 literal.
fn octet_check(t: &str) -> (r: bool)
    ensures
        r == octet_ok(t@),
{
    let n = t.unicode_len();
    if n < 1 || n > 3 {
        return false;
    }
    let mut value: u64 = 0;
    let mut i: usize = 0;
    while i < n
        invariant
            i <= n,
            n == t@.len(),
            1 <= n <= 3,
            forall|j: int| 0 <= j < i ==> is_digit(t@[j]),
            value == digits_value(t@.subrange(0, i as int)),
            value < (if i == 0 { 1int } else if i == 1 { 10int } else if i == 2 { 100int } else { 1000int }),
        decreases n - i,
    {
        let c = t.get_char(i);
        if !('0' <= c && c <= '9') {
            return false;
        }
        assert(t@.subrange(0, i + 1).drop_last() =~= t@.subrange(0, i as int));
        value = value * 10 + ((c as u64) - ('0' as u64));
        i = i + 1;
    }
    assert(t@.subrange(0, n as int) =~= t@);
    if n > 1 && t.get_char(0) == '0' {
        return false;
    }
    value <= 255
}

/// Position of the first `.` of `s` at or after `from`, if any.
fn next_dot(s: &str, from: usize) -> (r: Option<usize>)
    requires
        from <= s@.len(),
    ensures
        r matches Some(k) ==> from <= k < s@.len() && s@[k as int] == '.'
            && forall|j: int| from <= j < k ==> s@[j] != '.',
        r is None ==> forall|j: int| from <= j < s@.len() ==> s@[j] != '.',
{
    let n = s.unicode_len();
    let mut k: usize = from;
    while k < n
        invariant
            from <= k <= n,
            n == s@.len(),
            forall|j: int| from <= j < k ==> s@[j] != '.',
        decreases n - k,
    {
        if s.get_char(k) == '.' {
            return Some(k);
        }
        k = k + 1;
    }
    None
}

/// A digit group holds no dot.
proof fn lemma_octet_no_dot(s: Seq<char>, lo: int, hi: int, j: int)
    requires
        0 <= lo <= j < hi <= s.len(),
        octet_ok(s.subrange(lo, hi)),
    ensures
        s[j] != '.',
{
    assert(s.subrange(lo, hi)[j - lo] == s[j]);
    assert(is_digit(s.subrange(lo, hi)[j - lo]));
}

/// The dots of `s` at `a`, `b` and `c` split it into four valid groups.
pub open spec fn quad_at(s: Seq<char>, a: int, b: int, c: int) -> bool {
    &&& 0 <= a < b < c < s.len()
    &&& s[a] == '.' && s[b] == '.' && s[c] == '.'
    &&& octet_ok(s.subrange(0, a)) && octet_ok(s.subrange(a + 1, b))
    &&& octet_ok(s.subrange(b + 1, c)) && octet_ok(s.subrange(c + 1, s.len() as int))
}

/// A valid split has no other dots.
proof fn lemma_quad_dots(s: Seq<char>, a: int, b: int, c: int)
    requires
        quad_at(s, a, b, c),
    ensures
        forall|j: int| 0 <= j < a ==> s[j] != '.',
        forall|j: int| a < j < b ==> s[j] != '.',
        forall|j: int| b < j < c ==> s[j] != '.',
        forall|j: int| c < j < s.len() ==> s[j] != '.',
{
    assert forall|j: int| 0 <= j < a implies s[j] != '.' by { lemma_octet_no_dot(s, 0, a, j); }
    assert forall|j: int| a < j < b implies s[j] != '.' by { lemma_octet_no_dot(s, a + 1, b, j); }
    assert forall|j: int| b < j < c implies s[j] != '.' by { lemma_octet_no_dot(s, b + 1, c, j); }
    assert forall|j: int| c < j < s.len() implies s[j] != '.' by { lemma_octet_no_dot(s, c + 1, s.len() as int, j); }
}

/// Whether `s` is an IPv4 literal in dotted-quad form.
pub fn ipv4_literal(s: &str) -> (r: bool)
    ensures
        r == is_ipv4_literal(s@),
{
    let n = s.unicode_len();
    let ghost mut w: (int, int, int) = (0, 0, 0);
    proof {
        if is_ipv4_literal(s@) {
            w = choose|w: (int, int, int)| quad_at(s@, w.0, w.1, w.2);
            lemma_quad_dots(s@, w.0, w.1, w.2);
        }
    }
    let a = match next_dot(s, 0) {
        Some(k) => k,
        None => {
            return false;
        },
    };
    assert(is_ipv4_literal(s@) ==> a == w.0);
    let b = match next_dot(s, a + 1) {
        Some(k) => k,
        None => {
            return false;
        },
    };
    assert(is_ipv4_literal(s@) ==> b == w.1);
    let c = match next_dot(s, b + 1) {
        Some(k) => k,
        None => {
            return false;
        },
    };
    assert(is_ipv4_literal(s@) ==> c == w.2);
    let ok = octet_check(s.substring_char(0, a)) && octet_check(s.substring_char(a + 1, b))
        && octet_check(s.substring_char(b + 1, c)) && octet_check(s.substring_char(c + 1, n));
    proof {
        if ok {
            let t = (a as int, b as int, c as int);
            assert(quad_at(s@, t.0, t.1, t.2));
        }
    }
    ok
}

/// `c` is a hexadecimal digit, in either case.
pub open spec fn is_hex_digit(c: char) -> bool {
    ('0' <= c && c <= '9') || ('a' <= c && c <= 'f') || ('A' <= c && c <= 'F')
}

/// A character is a colon.
pub open spec fn is_colon() -> spec_fn(char) -> bool {
    |c: char| c == ':'
}

/// The number of colons in `s`.
pub open spec fn colon_count(s: Seq<char>) -> nat {
    s.filter(is_colon()).len()
}

/// Five hexadecimal digits in a row start at `i`.
pub open spec fn hex_window(s: Seq<char>, i: int) -> bool {
    is_hex_digit(s[i]) && is_hex_digit(s[i + 1]) && is_hex_digit(s[i + 2]) && is_hex_digit(s[i + 3])
        && is_hex_digit(s[i + 4])
}

/// Two colons in a row start at `i`.
pub open spec fn colon_pair(s: Seq<char>, i: int) -> bool {
    s[i] == ':' && s[i + 1] == ':'
}

/// `s` is one or more groups of one to four hexadecimal digits separated by
/// single colons.
pub open spec fn is_group_list(s: Seq<char>) -> bool {
    &&& s.len() > 0
    &&& forall|i: int| 0 <= i < s.len() ==> is_hex_digit(#[trigger] s[i]) || s[i] == ':'
    &&& s[0] != ':'
    &&& s[s.len() - 1] != ':'
    &&& forall|i: int| 0 <= i < s.len() - 1 ==> !#[trigger] colon_pair(s, i)
    &&& forall|i: int| 0 <= i && i + 4 < s.len() ==> !#[trigger] hex_window(s, i)
}

/// The number of groups of `s`, when it is a group list.
#[verifier::rlimit(100)]
fn group_list_check(t: &str) -> (r: Option<u64>)
    ensures
        r is Some <==> is_group_list(t@),
        r matches Some(n) ==> n == colon_count(t@) + 1 && n <= t@.len(),
{
    let n = t.unicode_len();
    let ghost s = t@;
    let mut run: usize = 0;
    let mut colons: u64 = 0;
    let mut k: usize = 0;
    while k < n
        invariant
            s == t@,
            n == s.len(),
            k <= n,
            run <= 4,
            run <= k,
            colons + run <= k,
            colons == s.subrange(0, k as int).filter(is_colon()).len(),
            forall|j: int| k - run <= j < k ==> is_hex_digit(#[trigger] s[j]),
            k - run == 0 || s[k - run - 1] == ':',
            forall|i: int| 0 <= i < k ==> is_hex_digit(#[trigger] s[i]) || s[i] == ':',
            k > 0 ==> s[0] != ':',
            forall|i: int| 0 <= i < k - 1 ==> !#[trigger] colon_pair(s, i),
            forall|i: int| 0 <= i && i + 4 < k ==> !#[trigger] hex_window(s, i),
        decreases n - k,
    {
        let c = t.get_char(k);
        assert(s.subrange(0, k + 1) =~= s.subrange(0, k as int).push(c));
        proof { s.subrange(0, k as int).lemma_filter_push(c, is_colon()); }
        if c == ':' {
            if run == 0 {
                proof {
                    if k > 0 {
                        assert(colon_pair(s, k - 1));
                    }
                }
                return None;
            }
            run = 0;
            colons = colons + 1;
        } else if ('0' <= c && c <= '9') || ('a' <= c && c <= 'f') || ('A' <= c && c <= 'F') {
            if run == 4 {
                assert(is_hex_digit(s[k - 4]) && is_hex_digit(s[k - 3]) && is_hex_digit(s[k - 2])
                    && is_hex_digit(s[k - 1]));
                assert(hex_window(s, k - 4));
                return None;
            }
            run = run + 1;
        } else {
            assert(!(is_hex_digit(s[k as int]) || s[k as int] == ':'));
            return None;
        }
        k = k + 1;
    }
    assert(s.subrange(0, n as int) =~= s);
    if run == 0 {
        proof {
            if n > 0 {
                assert(s[n - 1] == ':');
            }
        }
        return None;
    }
    Some(colons + 1)
}

/// The position of the last colon of `s`, where it has one.
pub open spec fn last_colon_of(s: Seq<char>) -> int {
    choose|i: int| is_last_colon(s, i)
}

/// The 16-bit slots a colon list fills: one per hexadecimal group, and two
/// for an IPv4 literal that ends it (where `allow_v4`); `-1` where `s` is no
/// such list.
pub open spec fn list_slots(s: Seq<char>, allow_v4: bool) -> int {
    if is_group_list(s) {
        colon_count(s) + 1int
    } else if allow_v4 && is_ipv4_literal(s) {
        2
    } else if allow_v4 && has_colon(s) && is_group_list(s.subrange(0, last_colon_of(s)))
        && is_ipv4_literal(s.subrange(last_colon_of(s) + 1, s.len() as int)) {
        colon_count(s.subrange(0, last_colon_of(s))) + 3int
    } else {
        -1
    }
}

/// Two colons in a row first start at `p`.
pub open spec fn first_colon_pair(s: Seq<char>, p: int) -> bool {
    &&& 0 <= p < s.len() - 1
    &&& colon_pair(s, p)
    &&& forall|j: int| 0 <= j < p ==> !#[trigger] colon_pair(s, j)
}

/// `s` holds two colons in a row.
pub open spec fn has_colon_pair(s: Seq<char>) -> bool {
    exists|p: int| 0 <= p < s.len() - 1 && #[trigger] colon_pair(s, p)
}

/// `s` is an IPv6 address in text form: eight 16-bit slots, or fewer around
/// one `::` that stands for at least one zero group; an IPv4 literal may
/// fill the last two slots.
pub open spec fn is_ipv6_text(s: Seq<char>) -> bool {
    if has_colon_pair(s) {
        let p = choose|p: int| first_colon_pair(s, p);
        let h = s.subrange(0, p);
        let t = s.subrange(p + 2, s.len() as int);
        let hs = if h.len() == 0 { 0 } else { list_slots(h, false) };
        let ts = if t.len() == 0 { 0 } else { list_slots(t, true) };
        hs >= 0 && ts >= 0 && hs + ts <= 7
    } else {
        list_slots(s, true) == 8
    }
}

/// `i` is the first `%` of `s`.
pub open spec fn first_percent(s: Seq<char>, i: int) -> bool {
    0 <= i < s.len() && s[i] == '%' && forall|j: int| 0 <= j < i ==> s[j] != '%'
}

/// `d` is a zone index: decimal digits whose value fits 32 bits.
pub open spec fn is_scope_id(d: Seq<char>) -> bool {
    d.len() > 0 && all_digits(d) && digits_value(d) <= 4294967295
}

/// `h` is an IPv6 address in brackets, with an optional `%` zone index.
pub open spec fn is_bracketed_ipv6(h: Seq<char>) -> bool {
    &&& h.len() >= 2
    &&& h[0] == '['
    &&& h[h.len() - 1] == ']'
    &&& {
        let inner = h.subrange(1, h.len() - 1);
        if exists|i: int| first_percent(inner, i) {
            let q = choose|i: int| first_percent(inner, i);
            is_ipv6_text(inner.subrange(0, q)) && is_scope_id(inner.subrange(q + 1, inner.len() as int))
        } else {
            is_ipv6_text(inner)
        }
    }
}

/// `h` followed by `:` and a port reads as a socket address: `h` is an IPv4
/// literal or a bracketed IPv6 address.
pub open spec fn is_socket_host(h: Seq<char>) -> bool {
    is_ipv4_literal(h) || is_bracketed_ipv6(h)
}

/// The slots `t` fills, as `list_slots` gives them.
fn list_slots_check(t: &str, allow_v4: bool) -> (r: Option<u64>)
    ensures
        r is Some <==> list_slots(t@, allow_v4) >= 0,
        r matches Some(n) ==> n == list_slots(t@, allow_v4),
{
    match group_list_check(t) {
        Some(n) => {
            return Some(n);
        },
        None => {},
    }
    if !allow_v4 {
        return None;
    }
    if ipv4_literal(t) {
        return Some(2);
    }
    let n = t.unicode_len();
    match NetworkUtils::last_colon_at(t) {
        Some(c) => {
            assert(last_colon_of(t@) == c as int) by {
                let w = choose|i: int| is_last_colon(t@, i);
                if w < c as int {
                    assert(t@[c as int] == ':');
                } else if w > c as int {
                    assert(t@[w] == ':');
                }
            }
            let head = t.substring_char(0, c);
            let tail = t.substring_char(c + 1, n);
            match group_list_check(head) {
                Some(h) => {
                    if ipv4_literal(tail) {
                        proof {
                            let w = choose|w: (int, int, int)| quad_at(tail@, w.0, w.1, w.2);
                        }
                        Some(h + 2)
                    } else {
                        None
                    }
                },
                None => None,
            }
        },
        None => None,
    }
}

/// The first position of two colons in a row in `s`, if any.
fn first_colon_pair_at(s: &str) -> (r: Option<usize>)
    ensures
        r matches Some(p) ==> first_colon_pair(s@, p as int),
        r is None ==> !has_colon_pair(s@),
{
    let n = s.unicode_len();
    if n < 2 {
        return None;
    }
    let mut p: usize = 0;
    while p + 1 < n
        invariant
            n == s@.len(),
            n >= 2,
            p + 1 <= n,
            forall|j: int| 0 <= j < p ==> !#[trigger] colon_pair(s@, j),
        decreases n - p,
    {
        if s.get_char(p) == ':' && s.get_char(p + 1) == ':' {
            return Some(p);
        }
        p = p + 1;
    }
    None
}

/// Whether `s` is an IPv6 address in text form.
fn ipv6_text(s: &str) -> (r: bool)
    ensures
        r == is_ipv6_text(s@),
{
    let n = s.unicode_len();
    match first_colon_pair_at(s) {
        Some(p) => {
            assert((choose|q: int| first_colon_pair(s@, q)) == p as int) by {
                let q = choose|q: int| first_colon_pair(s@, q);
                if q < p as int {
                    assert(colon_pair(s@, q));
                } else if q > p as int {
                    assert(colon_pair(s@, p as int));
                }
            }
            let h = s.substring_char(0, p);
            let t = s.substring_char(p + 2, n);
            let hs: u64 = if p == 0 {
                0
            } else {
                match list_slots_check(h, false) {
                    Some(x) => x,
                    None => {
                        return false;
                    },
                }
            };
            let ts: u64 = if p + 2 == n {
                0
            } else {
                match list_slots_check(t, true) {
                    Some(x) => x,
                    None => {
                        return false;
                    },
                }
            };
            hs <= 7 && ts <= 7 - hs
        },
        None => {
            match list_slots_check(s, true) {
                Some(x) => x == 8,
                None => false,
            }
        },
    }
}

/// Whether `d` is a zone index.
fn scope_id_check(d: &str) -> (r: bool)
    ensures
        r == is_scope_id(d@),
{
    let n = d.unicode_len();
    if n == 0 {
        return false;
    }
    let mut value: u64 = 0;
    let mut i: usize = 0;
    while i < n
        invariant
            i <= n,
            n == d@.len(),
            forall|j: int| 0 <= j < i ==> is_digit(d@[j]),
            value == digits_value(d@.subrange(0, i as int)),
            value <= 4294967295,
        decreases n - i,
    {
        let c = d.get_char(i);
        if !('0' <= c && c <= '9') {
            assert(!is_digit(d@[i as int]));
            return false;
        }
        assert(d@.subrange(0, i + 1).drop_last() =~= d@.subrange(0, i as int));
        let next = value * 10 + ((c as u64) - ('0' as u64));
        if next > 4294967295 {
            proof {
                if all_digits(d@) {
                    lemma_digits_value_prefix(d@, i + 1);
                }
            }
            return false;
        }
        value = next;
        i = i + 1;
    }
    assert(d@.subrange(0, n as int) =~= d@);
    true
}

/// The first `%` of `s`, if any.
fn first_percent_at(s: &str) -> (r: Option<usize>)
    ensures
        r matches Some(i) ==> first_percent(s@, i as int),
        r is None ==> forall|j: int| 0 <= j < s@.len() ==> s@[j] != '%',
{
    let n = s.unicode_len();
    let mut i: usize = 0;
    while i < n
        invariant
            i <= n,
            n == s@.len(),
            forall|j: int| 0 <= j < i ==> s@[j] != '%',
        decreases n - i,
    {
        if s.get_char(i) == '%' {
            return Some(i);
        }
        i = i + 1;
    }
    None
}

/// Whether `h` followed by `:` and a port reads as a socket address.
pub fn socket_host(h: &str) -> (r: bool)
    ensures
        r == is_socket_host(h@),
{
    if ipv4_literal(h) {
        return true;
    }
    let n = h.unicode_len();
    if n < 2 || h.get_char(0) != '[' || h.get_char(n - 1) != ']' {
        return false;
    }
    let inner = h.substring_char(1, n - 1);
    match first_percent_at(inner) {
        Some(q) => {
            assert((choose|i: int| first_percent(inner@, i)) == q as int) by {
                let w = choose|i: int| first_percent(inner@, i);
                if w < q as int {
                    assert(inner@[w] == '%');
                } else if w > q as int {
                    assert(inner@[q as int] == '%');
                }
            }
            let m = inner.unicode_len();
            ipv6_text(inner.substring_char(0, q)) && scope_id_check(inner.substring_char(q + 1, m))
        },
        None => ipv6_text(inner),
    }
}

/// Network helper functions.
pub struct NetworkUtils;

impl NetworkUtils {
    /// Split `address` at its last `:` into host and port.
    pub fn parse_address(address: &str) -> (r: HoResult<(String, u16)>)
        ensures
            !has_colon(address@) ==> r is Err,
            forall|i: int| is_last_colon(address@, i) ==> (match r {
                Ok((host, port)) => port_of(address@.subrange(i + 1, address@.len() as int)) == Some(port)
                    && host@ == address@.subrange(0, i),
                Err(_) => port_of(address@.subrange(i + 1, address@.len() as int)) is None,
            }),
    {
        let n = address.unicode_len();
        let colon = match Self::last_colon_at(address) {
            Some(c) => c,
            None => {
                return Err(HoError::Network(String::from_str("invalid address format")));
            },
        };
        assert forall|i: int| is_last_colon(address@, i) implies i == colon as int by {
            if i < colon as int {
                assert(address@[colon as int] == ':');
            }
        }
        let host_part = address.substring_char(0, colon);
        let port_part = address.substring_char(colon + 1, n);
        match Self::parse_port(port_part) {
            Some(port) => Ok((String::from_str(host_part), port)),
            None => Err(HoError::Network(String::from_str("invalid port in address"))),
        }
    }

    /// Position of the last `:` of `s`, if any.
    fn last_colon_at(s: &str) -> (r: Option<usize>)
        ensures
            r matches Some(i) ==> is_last_colon(s@, i as int),
            r is None ==> !has_colon(s@),
    {
        let n = s.unicode_len();
        let mut k: usize = n;
        while k > 0
            invariant
                k <= n,
                n == s@.len(),
                forall|j: int| k <= j < n ==> s@[j] != ':',
            decreases k,
        {
            if s.get_char(k - 1) == ':' {
                return Some(k - 1);
            }
            k = k - 1;
        }
        None
    }

    /// The port `text` denotes, as `u16::from_str` reads it.
    fn parse_port(text: &str) -> (r: Option<u16>)
        ensures
            r == port_of(text@),
    {
        let n = text.unicode_len();
        let mut start: usize = 0;
        if n > 0 && text.get_char(0) == '+' {
            start = 1;
        }
        let ghost d = port_digits(text@);
        assert(d =~= text@.subrange(start as int, n as int));
        if start == n {
            return None;
        }
        let mut value: u64 = 0;
        let mut i: usize = start;
        while i < n
            invariant
                start <= i <= n,
                n == text@.len(),
                d == port_digits(text@),
                d == text@.subrange(start as int, n as int),
                forall|j: int| start <= j < i ==> is_digit(text@[j]),
                value == digits_value(text@.subrange(start as int, i as int)),
                value <= 65535,
            decreases n - i,
        {
            let c = text.get_char(i);
            if !('0' <= c && c <= '9') {
                assert(!is_digit(d[i - start]));
                return None;
            }
            let ghost p = text@.subrange(start as int, i + 1);
            assert(p.drop_last() =~= text@.subrange(start as int, i as int));
            let digit = (c as u64) - ('0' as u64);
            let next = value * 10 + digit;
            if next > 65535 {
                proof {
                    if all_digits(d) {
                        lemma_digits_value_prefix(d, i + 1 - start);
                        assert(d.subrange(0, i + 1 - start) =~= p);
                    }
                }
                return None;
            }
            value = next;
            i = i + 1;
        }
        assert(text@.subrange(start as int, n as int) =~= d);
        assert(all_digits(d)) by {
            assert forall|j: int| 0 <= j < d.len() implies is_digit(#[trigger] d[j]) by {
                assert(d[j] == text@[start + j]);
            }
        }
        Some(value as u16)
    }

    /// Join host and port as `host:port`.
    pub fn format_address(host: &str, port: u16) -> (r: String)
        ensures
            r@ == host@ + ":"@ + decimal(port as nat),
    {
        let mut s = String::from_str(host);
        s.append(":");
        let p = decimal_string(port as u64);
        s.append(p.as_str());
        s
    }

    /// A port number that fits 16 bits and is not zero.
    pub fn validate_port(port: u32) -> (r: HoResult<u16>)
        ensures
            r matches Ok(p) ==> p as u32 == port,
            r is Ok <==> 1 <= port <= 65535,
    {
        if port == 0 || port > 65535 {
            return Err(HoError::Network(String::from_str("invalid port number")));
        }
        Ok(port as u16)
    }
}

} // verus!

use vstd::prelude::*;
use crate::text::{is_alnum, is_digit, char_is_alnum, char_is_digit, chars_of, string_of, has_prefix, starts_with};

verus! {

pub open spec fn http_scheme() -> Seq<char> {
    seq!['h', 't', 't', 'p', ':', '/', '/']
}

pub open spec fn https_scheme() -> Seq<char> {
    seq!['h', 't', 't', 'p', 's', ':', '/', '/']
}

/// The character may stand inside a host label: a letter, a digit or `-`.
pub open spec fn is_label_char(c: char) -> bool {
    is_alnum(c) || c == '-'
}

/// `h` begins with a host: a first label (a letter or digit, then letters,
/// digits and `-`), a dot at `d`, and a letter or digit after it.
pub open spec fn host_dot_at(h: Seq<char>, d: int) -> bool {
    &&& 1 <= d
    &&& d + 1 < h.len()
    &&& h[d] == '.'
    &&& is_alnum(h[0])
    &&& forall|j: int| 0 <= j < d ==> #[trigger] is_label_char(h[j])
    &&& is_alnum(h[d + 1])
}

pub open spec fn starts_with_host(h: Seq<char>) -> bool {
    exists|d: int| host_dot_at(h, d)
}

/// `s` begins with an `http://` or `https://` scheme followed by a host
/// of at least two dot-separated labels. A leading `www.`, a path and a query
/// may follow the scheme but are never required, so only this prefix decides.
pub open spec fn url_shape(s: Seq<char>) -> bool {
    ||| (s.len() >= 7 && s.take(7) == http_scheme() && starts_with_host(s.skip(7)))
    ||| (s.len() >= 8 && s.take(8) == https_scheme() && starts_with_host(s.skip(8)))
}

fn host_at(v: &Vec<char>, start: usize) -> (r: bool)
    requires
        start <= v@.len(),
    ensures
        r == starts_with_host(v@.skip(start as int)),
{
    let ghost h = v@.skip(start as int);
    let n = v.len();
    if start >= n || !char_is_alnum(v[start]) {
        assert(forall|d: int| !host_dot_at(h, d));
        return false;
    }
    let mut i: usize = start + 1;
    while i < n && v[i] != '.'
        invariant
            start < i <= n,
            n == v@.len(),
            h == v@.skip(start as int),
            is_alnum(h[0]),
            forall|j: int| 0 <= j < i - start ==> #[trigger] is_label_char(h[j]),
        decreases n - i,
    {
        let c = v[i];
        if !(char_is_alnum(c) || c == '-') {
            assert(!is_label_char(h[i - start]));
            assert forall|d: int| !host_dot_at(h, d) by {
                if host_dot_at(h, d) {
                    if d > i - start {
                        assert(is_label_char(h[i - start]));
                    } else {
                        assert(h[d] == '.');
                        assert(is_label_char(h[d]));
                    }
                }
            }
            return false;
        }
        assert(h[i - start] == c);
        i = i + 1;
    }
    if i >= n || i + 1 >= n {
        assert forall|d: int| !host_dot_at(h, d) by {
            if host_dot_at(h, d) {
                if d < i - start {
                    assert(is_label_char(h[d]));
                } else if d > i - start {
                    assert(is_label_char(h[i - start]));
                }
            }
        }
        return false;
    }
    let ok = char_is_alnum(v[i + 1]);
    let ghost d0 = (i - start) as int;
    if ok {
        assert(host_dot_at(h, d0));
    } else {
        assert forall|d: int| !host_dot_at(h, d) by {
            if host_dot_at(h, d) {
                if d < d0 {
                    assert(is_label_char(h[d]));
                } else if d > d0 {
                    assert(is_label_char(h[d0]));
                }
            }
        }
    }
    ok
}

/// Tells whether `url` starts with an HTTP or HTTPS address: the scheme, an
/// optional `www.`, a host of dot-separated labels, then an optional path and
/// query.
pub fn is_valid_url(url: &str) -> (r: bool)
    ensures
        r == url_shape(url@),
{
    let v = chars_of(url);
    let http = vec!['h', 't', 't', 'p', ':', '/', '/'];
    let https = vec!['h', 't', 't', 'p', 's', ':', '/', '/'];
    assert(http@ == http_scheme());
    assert(https@ == https_scheme());
    if has_prefix(&v, &http) {
        let r = host_at(&v, 7);
        assert(!(v@.len() >= 8 && v@.take(8) == https_scheme())) by {
            if v@.len() >= 8 && v@.take(8) == https_scheme() {
                assert(v@.take(7)[4] == v@.take(8)[4]);
            }
        }
        r
    } else if has_prefix(&v, &https) {
        host_at(&v, 8)
    } else {
        false
    }
}

/// Number of decimal digits in `s` from index `i` on, up to the first non-digit.
pub open spec fn digits_from(s: Seq<char>, i: int) -> int
    decreases s.len() - i,
{
    if 0 <= i < s.len() && is_digit(s[i]) {
        1 + digits_from(s, i + 1)
    } else {
        0
    }
}

/// Length of a playback-timestamp parameter starting at index `i` of `s`:
/// `?` or `&`, then `t=`, one or more digits, and optionally a dot followed by
/// more digits. Zero where none starts there.
pub open spec fn timestamp_len_at(s: Seq<char>, i: int) -> int {
    if 0 <= i && i + 3 < s.len() && (s[i] == '?' || s[i] == '&') && s[i + 1] == 't'
        && s[i + 2] == '=' && is_digit(s[i + 3]) {
        let k = i + 3 + digits_from(s, i + 3);
        if k < s.len() && s[k] == '.' {
            k + 1 + digits_from(s, k + 1) - i
        } else {
            k - i
        }
    } else {
        0
    }
}

/// `s` from index `i` on, with every timestamp parameter removed, scanning left
/// to right and resuming after each removed parameter.
pub open spec fn strip_timestamps_from(s: Seq<char>, i: int) -> Seq<char>
    decreases s.len() - i,
    via strip_timestamps_decreases
{
    if i < 0 || i >= s.len() {
        Seq::empty()
    } else if timestamp_len_at(s, i) > 0 {
        strip_timestamps_from(s, i + timestamp_len_at(s, i))
    } else {
        seq![s[i]] + strip_timestamps_from(s, i + 1)
    }
}

#[via_fn]
proof fn strip_timestamps_decreases(s: Seq<char>, i: int) {
    if 0 <= i < s.len() {
        lemma_timestamp_len_bound(s, i);
    }
}

pub open spec fn strip_timestamps(s: Seq<char>) -> Seq<char> {
    strip_timestamps_from(s, 0)
}

proof fn lemma_digits_bound(s: Seq<char>, i: int)
    requires
        0 <= i <= s.len(),
    ensures
        0 <= digits_from(s, i) <= s.len() - i,
    decreases s.len() - i,
{
    if i < s.len() && is_digit(s[i]) {
        lemma_digits_bound(s, i + 1);
    }
}

proof fn lemma_timestamp_len_bound(s: Seq<char>, i: int)
    requires
        0 <= i < s.len(),
    ensures
        0 <= timestamp_len_at(s, i) <= s.len() - i,
{
    if i + 3 < s.len() {
        lemma_digits_bound(s, i + 3);
        let k = i + 3 + digits_from(s, i + 3);
        if k < s.len() {
            lemma_digits_bound(s, k + 1);
        }
    }
}

fn digit_run(v: &Vec<char>, i: usize) -> (r: usize)
    requires
        i <= v@.len(),
    ensures
        r == digits_from(v@, i as int),
{
    let mut j: usize = i;
    while j < v.len() && char_is_digit(v[j])
        invariant
            i <= j <= v@.len(),
            digits_from(v@, i as int) == (j - i) + digits_from(v@, j as int),
        decreases v@.len() - j,
    {
        j = j + 1;
    }
    (j - i) as usize
}

fn timestamp_at(v: &Vec<char>, i: usize) -> (r: usize)
    requires
        i < v@.len(),
    ensures
        r == timestamp_len_at(v@, i as int),
        i + r <= v@.len(),
{
    let n = v.len();
    if n - i > 3 && (v[i] == '?' || v[i] == '&') && v[i + 1] == 't' && v[i + 2] == '='
        && char_is_digit(v[i + 3]) {
        proof {
            lemma_digits_bound(v@, i + 3);
        }
        let k = i + 3 + digit_run(v, i + 3);
        if k < n && v[k] == '.' {
            proof {
                lemma_digits_bound(v@, k + 1);
            }
            k + 1 + digit_run(v, k + 1) - i
        } else {
            k - i
        }
    } else {
        0
    }
}

/// Removes every playback-timestamp parameter (`?t=30`, `&t=12.5`) from
/// `url`; such parameters matter to a player, not to extraction.
pub fn strip_timestamp_param(url: &str) -> (r: String)
    ensures
        r@ == strip_timestamps(url@),
{
    let v = chars_of(url);
    let mut out: Vec<char> = Vec::new();
    let mut i: usize = 0;
    while i < v.len()
        invariant
            i <= v@.len(),
            strip_timestamps(v@) == out@ + strip_timestamps_from(v@, i as int),
        decreases v@.len() - i,
    {
        let k = timestamp_at(&v, i);
        if k > 0 {
            i = i + k;
        } else {
            out.push(v[i]);
            assert(strip_timestamps_from(v@, i as int) == seq![v@[i as int]]
                + strip_timestamps_from(v@, i + 1));
            i = i + 1;
        }
    }
    assert(strip_timestamps_from(v@, i as int) == Seq::<char>::empty());
    assert(out@ + Seq::<char>::empty() =~= out@);
    string_of(&out)
}

/// A string accepted as a URL has an `http://` or `https://` scheme and, after
/// it, a host whose first label is followed by a dot and a letter or digit.
/// So a string without such a scheme, or without a dotted host, is refused.
pub proof fn lemma_url_needs_scheme_and_host(s: Seq<char>)
    requires
        url_shape(s),
    ensures
        starts_with(s, http_scheme()) || starts_with(s, https_scheme()),
        exists|i: int| 0 < i && i + 1 < s.len() && #[trigger] s[i] == '.' && is_alnum(s[i + 1]),
{
    if s.len() >= 7 && s.take(7) == http_scheme() && starts_with_host(s.skip(7)) {
        let d = choose|d: int| host_dot_at(s.skip(7), d);
        assert(s[7 + d] == s.skip(7)[d]);
        assert(s[7 + d + 1] == s.skip(7)[d + 1]);
    } else {
        let d = choose|d: int| host_dot_at(s.skip(8), d);
        assert(s[8 + d] == s.skip(8)[d]);
        assert(s[8 + d + 1] == s.skip(8)[d + 1]);
    }
}

} // verus!
